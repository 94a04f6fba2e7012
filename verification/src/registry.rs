//! The cross-declaration configuration store: a caller-owned registry that
//! collects interface signatures and per-type return overrides as
//! independent declarations are processed.
//!
//! Both tables are kept as append-only association lists in which the entry
//! pushed last wins, so an insert of an existing key overwrites it. Their
//! mathematical models are the corresponding finite maps.

use vstd::prelude::*;

use crate::descriptor::{InterfaceDescriptor, InterfaceDescriptorView};

verus! {

/// The finite map an interface table denotes: later entries overwrite
/// earlier ones.
pub open spec fn interfaces_map(
    entries: Seq<(String, InterfaceDescriptor)>,
) -> Map<Seq<char>, InterfaceDescriptorView>
    decreases entries.len(),
{
    if entries.len() == 0 {
        Map::empty()
    } else {
        interfaces_map(entries.drop_last()).insert(entries.last().0@, entries.last().1@)
    }
}

/// The finite map an override table denotes, keyed by mock type name and
/// method name: later entries overwrite earlier ones.
pub open spec fn overrides_map(
    entries: Seq<(String, String, String)>,
) -> Map<(Seq<char>, Seq<char>), Seq<char>>
    decreases entries.len(),
{
    if entries.len() == 0 {
        Map::empty()
    } else {
        overrides_map(entries.drop_last()).insert(
            (entries.last().0@, entries.last().1@),
            entries.last().2@,
        )
    }
}

/// Holds interface method lists keyed by interface name, and return
/// overrides keyed by mock type name and method name.
pub struct Registry {
    interfaces: Vec<(String, InterfaceDescriptor)>,
    overrides: Vec<(String, String, String)>,
}

impl Registry {
    /// The interface table as a map from interface name to descriptor.
    pub closed spec fn interfaces_view(&self) -> Map<Seq<char>, InterfaceDescriptorView> {
        interfaces_map(self.interfaces@)
    }

    /// The override table as a map from (type name, method name) to the
    /// configured return expression text.
    pub closed spec fn overrides_view(&self) -> Map<(Seq<char>, Seq<char>), Seq<char>> {
        overrides_map(self.overrides@)
    }

    /// An empty registry: no interfaces, no overrides.
    pub fn new() -> (r: Registry)
        ensures
            r.interfaces_view() == Map::<Seq<char>, InterfaceDescriptorView>::empty(),
            r.overrides_view() == Map::<(Seq<char>, Seq<char>), Seq<char>>::empty(),
    {
        Registry { interfaces: Vec::new(), overrides: Vec::new() }
    }

    /// Record the method list of the interface called `name`, overwriting
    /// any interface previously recorded under that name.
    pub fn register_interface(&mut self, name: String, desc: InterfaceDescriptor)
        ensures
            final(self).interfaces_view() == old(self).interfaces_view().insert(name@, desc@),
            final(self).overrides_view() == old(self).overrides_view(),
    {
        self.interfaces.push((name, desc));
        proof {
            assert(final(self).interfaces@.drop_last() =~= old(self).interfaces@);
        }
    }

    /// Record the return expression for `method` on the mock type `owner`,
    /// overwriting any expression previously recorded for that pair.
    pub fn set_return_value(&mut self, owner: String, method: String, expr: String)
        ensures
            final(self).overrides_view() == old(self).overrides_view().insert(
                (owner@, method@),
                expr@,
            ),
            final(self).interfaces_view() == old(self).interfaces_view(),
    {
        self.overrides.push((owner, method, expr));
        proof {
            assert(final(self).overrides@.drop_last() =~= old(self).overrides@);
        }
    }

    /// The descriptor recorded under `name`, if one is.
    pub fn lookup_interface(&self, name: &String) -> (r: Option<&InterfaceDescriptor>)
        ensures
            match r {
                Some(d) => self.interfaces_view().contains_key(name@) && d@
                    == self.interfaces_view()[name@],
                None => !self.interfaces_view().contains_key(name@),
            },
    {
        let mut i: usize = self.interfaces.len();
        while i > 0
            invariant
                i <= self.interfaces@.len(),
                forall|k: int|
                    i <= k < self.interfaces@.len() ==> self.interfaces@[k].0@ != name@,
            decreases i,
        {
            i = i - 1;
            if self.interfaces[i].0.eq(name) {
                proof {
                    lemma_interfaces_map_found(self.interfaces@, name@, i as int);
                }
                return Some(&self.interfaces[i].1);
            }
        }
        proof {
            lemma_interfaces_map_absent(self.interfaces@, name@);
        }
        None
    }

    /// The override expression recorded for `method` on `owner`, if one is.
    pub fn lookup_override(&self, owner: &String, method: &String) -> (r: Option<&String>)
        ensures
            match r {
                Some(e) => self.overrides_view().contains_key((owner@, method@)) && e@
                    == self.overrides_view()[(owner@, method@)],
                None => !self.overrides_view().contains_key((owner@, method@)),
            },
    {
        let mut i: usize = self.overrides.len();
        while i > 0
            invariant
                i <= self.overrides@.len(),
                forall|k: int|
                    i <= k < self.overrides@.len() ==> !(self.overrides@[k].0@ == owner@
                        && self.overrides@[k].1@ == method@),
            decreases i,
        {
            i = i - 1;
            if self.overrides[i].0.eq(owner) && self.overrides[i].1.eq(method) {
                proof {
                    lemma_overrides_map_found(self.overrides@, owner@, method@, i as int);
                }
                return Some(&self.overrides[i].2);
            }
        }
        proof {
            lemma_overrides_map_absent(self.overrides@, owner@, method@);
        }
        None
    }
}

/// In a table whose last entry for `name` stands at position `j`, the map
/// holds that entry's descriptor under `name`.
proof fn lemma_interfaces_map_found(
    entries: Seq<(String, InterfaceDescriptor)>,
    name: Seq<char>,
    j: int,
)
    requires
        0 <= j < entries.len(),
        entries[j].0@ == name,
        forall|k: int| j < k < entries.len() ==> entries[k].0@ != name,
    ensures
        interfaces_map(entries).contains_key(name),
        interfaces_map(entries)[name] == entries[j].1@,
    decreases entries.len(),
{
    if j < entries.len() - 1 {
        lemma_interfaces_map_found(entries.drop_last(), name, j);
    }
}

/// A name no entry carries is not in the map.
proof fn lemma_interfaces_map_absent(entries: Seq<(String, InterfaceDescriptor)>, name: Seq<char>)
    requires
        forall|k: int| 0 <= k < entries.len() ==> entries[k].0@ != name,
    ensures
        !interfaces_map(entries).contains_key(name),
    decreases entries.len(),
{
    if entries.len() > 0 {
        lemma_interfaces_map_absent(entries.drop_last(), name);
    }
}

/// In a table whose last entry for `(owner, method)` stands at position `j`,
/// the map holds that entry's expression under that key.
proof fn lemma_overrides_map_found(
    entries: Seq<(String, String, String)>,
    owner: Seq<char>,
    method: Seq<char>,
    j: int,
)
    requires
        0 <= j < entries.len(),
        entries[j].0@ == owner,
        entries[j].1@ == method,
        forall|k: int|
            j < k < entries.len() ==> !(entries[k].0@ == owner && entries[k].1@ == method),
    ensures
        overrides_map(entries).contains_key((owner, method)),
        overrides_map(entries)[(owner, method)] == entries[j].2@,
    decreases entries.len(),
{
    if j < entries.len() - 1 {
        lemma_overrides_map_found(entries.drop_last(), owner, method, j);
    }
}

/// A key no entry carries is not in the map.
proof fn lemma_overrides_map_absent(
    entries: Seq<(String, String, String)>,
    owner: Seq<char>,
    method: Seq<char>,
)
    requires
        forall|k: int|
            0 <= k < entries.len() ==> !(entries[k].0@ == owner && entries[k].1@ == method),
    ensures
        !overrides_map(entries).contains_key((owner, method)),
    decreases entries.len(),
{
    if entries.len() > 0 {
        lemma_overrides_map_absent(entries.drop_last(), owner, method);
    }
}

} // verus!
