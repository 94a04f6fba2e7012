//! Signature extraction: turning the members of a parsed interface
//! declaration into an `InterfaceDescriptor`.
//!
//! Non-method members are ignored. When two method signatures share a name,
//! the one extracted last overwrites the earlier one in place, so the
//! resulting method list never holds two methods of the same name.

use vstd::prelude::*;

use crate::descriptor::{InterfaceDescriptor, MethodDescriptor, MethodDescriptorView};

verus! {

/// One member of a parsed interface declaration: a method signature, or a
/// member of some other kind, which extraction ignores.
pub enum InterfaceItem {
    Method(MethodDescriptor),
    Other,
}

/// Mathematical image of an `InterfaceItem`.
pub enum InterfaceItemView {
    Method(MethodDescriptorView),
    Other,
}

impl View for InterfaceItem {
    type V = InterfaceItemView;

    open spec fn view(&self) -> InterfaceItemView {
        match self {
            InterfaceItem::Method(m) => InterfaceItemView::Method(m@),
            InterfaceItem::Other => InterfaceItemView::Other,
        }
    }
}

impl DeepView for InterfaceItem {
    type V = InterfaceItemView;

    open spec fn deep_view(&self) -> InterfaceItemView {
        self.view()
    }
}

/// No two method descriptors in the sequence share a name.
pub open spec fn unique_method_names(methods: Seq<MethodDescriptorView>) -> bool {
    forall|j: int, k: int|
        0 <= j < k < methods.len() ==> methods[j].name != methods[k].name
}

/// Insert a freshly extracted method: a method of the same name already in
/// the list is overwritten in place (the signature extracted last wins);
/// otherwise the method is appended.
pub open spec fn upsert_method(
    methods: Seq<MethodDescriptorView>,
    m: MethodDescriptorView,
) -> Seq<MethodDescriptorView> {
    if exists|j: int| 0 <= j < methods.len() && methods[j].name == m.name {
        methods.update(
            choose|j: int| 0 <= j < methods.len() && methods[j].name == m.name,
            m,
        )
    } else {
        methods.push(m)
    }
}

/// The method list extraction produces from the members of an interface
/// declaration, in member order.
pub open spec fn spec_extract_methods(items: Seq<InterfaceItemView>) -> Seq<MethodDescriptorView>
    decreases items.len(),
{
    if items.len() == 0 {
        Seq::empty()
    } else {
        match items.last() {
            InterfaceItemView::Method(m) => upsert_method(
                spec_extract_methods(items.drop_last()),
                m,
            ),
            InterfaceItemView::Other => spec_extract_methods(items.drop_last()),
        }
    }
}

/// Upserting keeps method names unique.
pub proof fn lemma_upsert_method_unique(methods: Seq<MethodDescriptorView>, m: MethodDescriptorView)
    requires
        unique_method_names(methods),
    ensures
        unique_method_names(upsert_method(methods, m)),
{
    if exists|j: int| 0 <= j < methods.len() && methods[j].name == m.name {
        let j = choose|j: int| 0 <= j < methods.len() && methods[j].name == m.name;
        let updated = methods.update(j, m);
        assert forall|a: int, b: int|
            0 <= a < b < updated.len() implies updated[a].name != updated[b].name by {
            assert(methods[a].name != methods[b].name);
        }
    }
}

/// Extraction never produces two methods of the same name.
pub proof fn lemma_extract_methods_unique(items: Seq<InterfaceItemView>)
    ensures
        unique_method_names(spec_extract_methods(items)),
    decreases items.len(),
{
    if items.len() > 0 {
        lemma_extract_methods_unique(items.drop_last());
        match items.last() {
            InterfaceItemView::Method(m) => {
                lemma_upsert_method_unique(spec_extract_methods(items.drop_last()), m);
            },
            InterfaceItemView::Other => {},
        }
    }
}

/// The position of the first method named `name`, if any.
fn find_method_index(methods: &Vec<MethodDescriptor>, name: &String) -> (r: Option<usize>)
    ensures
        match r {
            Some(j) => j < methods@.len() && methods.deep_view()[j as int].name == name@
                && forall|k: int| 0 <= k < j ==> methods.deep_view()[k].name != name@,
            None => forall|k: int| 0 <= k < methods@.len() ==> methods.deep_view()[k].name != name@,
        },
{
    let mut j: usize = 0;
    while j < methods.len()
        invariant
            j <= methods@.len(),
            forall|k: int| 0 <= k < j ==> methods.deep_view()[k].name != name@,
        decreases methods@.len() - j,
    {
        if methods[j].name.eq(name) {
            return Some(j);
        }
        j = j + 1;
    }
    None
}

/// Walk the members of an interface declaration named `name` and produce its
/// descriptor: every method signature is recorded in member order, a later
/// signature of an already-seen name overwrites the earlier one in place,
/// and members of other kinds are ignored.
pub fn extract(name: String, items: &Vec<InterfaceItem>) -> (r: InterfaceDescriptor)
    ensures
        r@.name == name@,
        r@.methods == spec_extract_methods(items.deep_view()),
{
    let ghost items_v = items.deep_view();
    let mut methods: Vec<MethodDescriptor> = Vec::new();
    let mut i: usize = 0;
    while i < items.len()
        invariant
            i <= items@.len(),
            items_v == items.deep_view(),
            items_v.len() == items@.len(),
            methods.deep_view() == spec_extract_methods(items_v.take(i as int)),
        decreases items@.len() - i,
    {
        let ghost prev = methods.deep_view();
        proof {
            assert(items_v.take(i + 1).drop_last() =~= items_v.take(i as int));
            assert(items_v.take(i + 1).last() == items_v[i as int]);
        }
        match &items[i] {
            InterfaceItem::Method(m) => {
                let md = m.duplicate();
                match find_method_index(&methods, &md.name) {
                    Some(j) => {
                        proof {
                            lemma_extract_methods_unique(items_v.take(i as int));
                            let jj = choose|jj: int|
                                0 <= jj < prev.len() && prev[jj].name == md@.name;
                            assert(jj == j);
                        }
                        methods[j] = md;
                        assert(methods.deep_view() =~= prev.update(j as int, md@));
                    },
                    None => {
                        methods.push(md);
                        assert(methods.deep_view() =~= prev.push(md@));
                    },
                }
            },
            InterfaceItem::Other => {},
        }
        i = i + 1;
    }
    proof {
        assert(items_v.take(items@.len() as int) =~= items_v);
    }
    InterfaceDescriptor { name, methods }
}

} // verus!
