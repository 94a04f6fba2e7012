//! Configuration supplied at the declaration site.
//!
//! The self-contained design takes a sequence of inline entries: a bare
//! `name` sets the mock type's name (at most one is allowed) and a
//! `name = expression` entry configures one method's return expression.
//! The registry design's set-return-value declaration instead carries raw
//! argument text of the shape `method, expression`, split at commas.

use vstd::prelude::*;
use vstd::string::{StrSliceExecFns, StringExecFns};

use crate::error::{MockError, MockErrorView};

verus! {

/// One inline configuration entry: a bare name, or `name = expression`.
pub enum ConfigEntry {
    Bare(String),
    KeyValue(String, String),
}

/// Mathematical image of a `ConfigEntry`.
pub enum ConfigEntryView {
    Bare(Seq<char>),
    KeyValue(Seq<char>, Seq<char>),
}

impl View for ConfigEntry {
    type V = ConfigEntryView;

    open spec fn view(&self) -> ConfigEntryView {
        match self {
            ConfigEntry::Bare(n) => ConfigEntryView::Bare(n@),
            ConfigEntry::KeyValue(k, v) => ConfigEntryView::KeyValue(k@, v@),
        }
    }
}

impl DeepView for ConfigEntry {
    type V = ConfigEntryView;

    open spec fn deep_view(&self) -> ConfigEntryView {
        self.view()
    }
}

/// A parsed local configuration: the mock type's name and the per-method
/// return overrides, in entry order.
pub struct LocalConfig {
    pub mock_name: String,
    pub overrides: Vec<(String, String)>,
}

/// How many bare name entries a configuration holds.
pub open spec fn spec_bare_count(entries: Seq<ConfigEntryView>) -> nat
    decreases entries.len(),
{
    if entries.len() == 0 {
        0
    } else {
        spec_bare_count(entries.drop_last()) + (match entries.last() {
            ConfigEntryView::Bare(_) => 1nat,
            ConfigEntryView::KeyValue(_, _) => 0nat,
        })
    }
}

/// The first bare name entry, if any: the configured mock type name.
pub open spec fn spec_bare_name(entries: Seq<ConfigEntryView>) -> Option<Seq<char>>
    decreases entries.len(),
{
    if entries.len() == 0 {
        None
    } else {
        match spec_bare_name(entries.drop_last()) {
            Some(n) => Some(n),
            None => match entries.last() {
                ConfigEntryView::Bare(n) => Some(n),
                ConfigEntryView::KeyValue(_, _) => None,
            },
        }
    }
}

/// The first bare name entry that follows another bare name entry, if any:
/// the entry that makes a configuration invalid.
pub open spec fn spec_duplicate_bare(entries: Seq<ConfigEntryView>) -> Option<Seq<char>>
    decreases entries.len(),
{
    if entries.len() == 0 {
        None
    } else {
        match spec_duplicate_bare(entries.drop_last()) {
            Some(n) => Some(n),
            None => match entries.last() {
                ConfigEntryView::Bare(n) => if spec_bare_count(entries.drop_last()) >= 1 {
                    Some(n)
                } else {
                    None
                },
                ConfigEntryView::KeyValue(_, _) => None,
            },
        }
    }
}

/// The per-method overrides a configuration holds, in entry order.
pub open spec fn spec_config_overrides(entries: Seq<ConfigEntryView>) -> Seq<
    (Seq<char>, Seq<char>),
>
    decreases entries.len(),
{
    if entries.len() == 0 {
        Seq::empty()
    } else {
        let prev = spec_config_overrides(entries.drop_last());
        match entries.last() {
            ConfigEntryView::Bare(_) => prev,
            ConfigEntryView::KeyValue(k, v) => prev.push((k, v)),
        }
    }
}

/// The name of the mock type a configuration asks for: the bare name entry
/// when one is given, else `Mock` prefixed to the interface's name.
pub open spec fn spec_local_mock_name(
    entries: Seq<ConfigEntryView>,
    interface_name: Seq<char>,
) -> Seq<char> {
    match spec_bare_name(entries) {
        Some(n) => n,
        None => "Mock"@ + interface_name,
    }
}

/// A prefix that already holds a duplicate bare name keeps it, whatever
/// follows.
proof fn lemma_duplicate_bare_extends(entries: Seq<ConfigEntryView>, i: int)
    requires
        0 <= i <= entries.len(),
        spec_duplicate_bare(entries.take(i)) is Some,
    ensures
        spec_duplicate_bare(entries) == spec_duplicate_bare(entries.take(i)),
    decreases entries.len() - i,
{
    if i == entries.len() {
        assert(entries.take(i) =~= entries);
    } else {
        assert(entries.take(i + 1).drop_last() =~= entries.take(i));
        lemma_duplicate_bare_extends(entries, i + 1);
    }
}

/// Parse the inline configuration entries of an interface named
/// `interface_name`: every `name = expression` entry becomes a per-method
/// override, in order; a single bare entry names the mock type, and a
/// second bare entry fails with `DuplicateMockNameError`; with no bare
/// entry the mock type name is `Mock` prefixed to the interface name.
pub fn parse_config(entries: &Vec<ConfigEntry>, interface_name: &String) -> (r: Result<
    LocalConfig,
    MockError,
>)
    ensures
        match r {
            Ok(cfg) => spec_duplicate_bare(entries.deep_view()) is None && cfg.overrides.deep_view()
                == spec_config_overrides(entries.deep_view()) && cfg.mock_name@
                == spec_local_mock_name(entries.deep_view(), interface_name@),
            Err(e) => spec_duplicate_bare(entries.deep_view()) is Some && e@
                == (MockErrorView::DuplicateMockNameError {
                name: spec_duplicate_bare(entries.deep_view())->0,
            }),
        },
{
    let ghost dv = entries.deep_view();
    let mut mock_name: Option<String> = None;
    let mut overrides: Vec<(String, String)> = Vec::new();
    let mut i: usize = 0;
    while i < entries.len()
        invariant
            i <= entries@.len(),
            dv == entries.deep_view(),
            dv.len() == entries@.len(),
            overrides.deep_view() == spec_config_overrides(dv.take(i as int)),
            match mock_name {
                Some(n) => spec_bare_name(dv.take(i as int)) == Some(n@),
                None => spec_bare_name(dv.take(i as int)) is None,
            },
            (spec_bare_count(dv.take(i as int)) >= 1) <==> mock_name is Some,
            spec_duplicate_bare(dv.take(i as int)) is None,
        decreases entries@.len() - i,
    {
        proof {
            assert(dv.take(i + 1).drop_last() =~= dv.take(i as int));
            assert(dv.take(i + 1).last() == dv[i as int]);
        }
        match &entries[i] {
            ConfigEntry::Bare(n) => {
                if mock_name.is_some() {
                    let name = n.clone();
                    proof {
                        assert(spec_duplicate_bare(dv.take(i + 1)) == Some(name@));
                        lemma_duplicate_bare_extends(dv, i + 1);
                    }
                    return Err(MockError::DuplicateMockNameError { name });
                }
                mock_name = Some(n.clone());
                assert(spec_bare_count(dv.take(i + 1)) == spec_bare_count(dv.take(i as int)) + 1);
            },
            ConfigEntry::KeyValue(k, v) => {
                let ghost prev = overrides.deep_view();
                overrides.push((k.clone(), v.clone()));
                proof {
                    assert(overrides.deep_view() =~= prev.push((k@, v@)));
                    assert(spec_bare_count(dv.take(i + 1)) == spec_bare_count(dv.take(i as int)));
                }
            },
        }
        i = i + 1;
    }
    proof {
        assert(dv.take(entries@.len() as int) =~= dv);
    }
    let name = match mock_name {
        Some(n) => n,
        None => {
            let mut n = String::from_str("Mock");
            n.append(interface_name.as_str());
            n
        },
    };
    Ok(LocalConfig { mock_name: name, overrides })
}

/// Whether `c` is blank space around an argument.
pub open spec fn is_blank(c: char) -> bool {
    c == ' ' || c == '\t' || c == '\n' || c == '\r'
}

/// `s` with all leading and trailing blank space removed.
pub open spec fn spec_trim(s: Seq<char>) -> Seq<char>
    decreases s.len(),
{
    if s.len() == 0 {
        s
    } else if is_blank(s.first()) {
        spec_trim(s.drop_first())
    } else if is_blank(s.last()) {
        spec_trim(s.drop_last())
    } else {
        s
    }
}

/// The position of the first comma at or after `from`, or the length of `s`
/// when there is none.
pub open spec fn spec_find_comma(s: Seq<char>, from: int) -> int
    decreases s.len() - from,
{
    if from < 0 || from >= s.len() {
        s.len() as int
    } else if s[from] == ',' {
        from
    } else {
        spec_find_comma(s, from + 1)
    }
}

/// A trim keeps exactly the characters between the blank ends.
proof fn lemma_trim_subrange(s: Seq<char>, lo: int, hi: int)
    requires
        0 <= lo <= hi <= s.len(),
        forall|k: int| 0 <= k < lo ==> is_blank(s[k]),
        forall|k: int| hi <= k < s.len() ==> is_blank(s[k]),
        lo < hi ==> !is_blank(s[lo]) && !is_blank(s[hi - 1]),
    ensures
        spec_trim(s) == s.subrange(lo, hi),
    decreases s.len(),
{
    if s.len() == 0 {
        assert(s.subrange(lo, hi) =~= s);
    } else if is_blank(s.first()) {
        let t = s.drop_first();
        if lo == hi {
            assert(forall|k: int| 0 <= k < t.len() ==> is_blank(#[trigger] t[k]));
            lemma_trim_subrange(t, 0, 0);
            assert(s.subrange(lo, hi) =~= t.subrange(0, 0));
        } else {
            assert(lo >= 1);
            lemma_trim_subrange(t, lo - 1, hi - 1);
            assert(s.subrange(lo, hi) =~= t.subrange(lo - 1, hi - 1));
        }
    } else if is_blank(s.last()) {
        assert(lo < hi);
        let t = s.drop_last();
        assert(hi - 1 < s.len() - 1);
        lemma_trim_subrange(t, lo, hi);
        assert(s.subrange(lo, hi) =~= t.subrange(lo, hi));
    } else {
        assert(lo == 0);
        assert(hi == s.len());
        assert(s.subrange(lo, hi) =~= s);
    }
}

/// Whether `c` is blank space around an argument.
fn is_blank_char(c: char) -> (r: bool)
    ensures
        r == is_blank(c),
{
    c == ' ' || c == '\t' || c == '\n' || c == '\r'
}

/// `s` with all leading and trailing blank space removed.
fn trim_text(s: &str) -> (r: String)
    ensures
        r@ == spec_trim(s@),
{
    let len = s.unicode_len();
    let mut lo: usize = 0;
    let mut hi: usize = len;
    while lo < hi && is_blank_char(s.get_char(lo))
        invariant
            0 <= lo <= hi <= s@.len(),
            hi == s@.len(),
            forall|k: int| 0 <= k < lo ==> is_blank(s@[k]),
        decreases hi - lo,
    {
        lo = lo + 1;
    }
    while hi > lo && is_blank_char(s.get_char(hi - 1))
        invariant
            0 <= lo <= hi <= s@.len(),
            forall|k: int| 0 <= k < lo ==> is_blank(s@[k]),
            forall|k: int| hi <= k < s@.len() ==> is_blank(s@[k]),
            lo < hi && lo < s@.len() ==> !is_blank(s@[lo as int]),
        decreases hi,
    {
        hi = hi - 1;
    }
    let sub = s.substring_char(lo, hi);
    proof {
        lemma_trim_subrange(s@, lo as int, hi as int);
    }
    String::from_str(sub)
}

/// The position of the first comma at or after `from`, or the length of `s`
/// when there is none.
fn find_comma(s: &str, from: usize) -> (r: usize)
    requires
        from <= s@.len(),
    ensures
        r as int == spec_find_comma(s@, from as int),
        from <= r <= s@.len(),
{
    let len = s.unicode_len();
    let mut i: usize = from;
    while i < len
        invariant
            from <= i <= len,
            len == s@.len(),
            spec_find_comma(s@, from as int) == spec_find_comma(s@, i as int),
        decreases len - i,
    {
        if s.get_char(i) == ',' {
            return i;
        }
        i = i + 1;
    }
    i
}

/// The method-name part of a set-return-value argument text: the text
/// before the first comma, trimmed.
pub open spec fn spec_return_at_method(s: Seq<char>) -> Seq<char> {
    spec_trim(s.take(spec_find_comma(s, 0)))
}

/// The expression part of a set-return-value argument text: the text
/// between the first comma and the second (or the end), trimmed.
pub open spec fn spec_return_at_value(s: Seq<char>) -> Seq<char> {
    let c1 = spec_find_comma(s, 0);
    spec_trim(s.subrange(c1 + 1, spec_find_comma(s, c1 + 1)))
}

/// Split the argument text of a set-return-value declaration into the
/// method name and the return expression, both trimmed: the name is the
/// text before the first comma and the expression the text between the
/// first comma and the second (or the end); any further parts are ignored.
/// Text with no comma at all is malformed and fails with
/// `ArgumentParseError`.
pub fn parse_return_at_args(args: &str) -> (r: Result<(String, String), MockError>)
    ensures
        match r {
            Ok(p) => spec_find_comma(args@, 0) < args@.len() && p.0@ == spec_return_at_method(args@)
                && p.1@ == spec_return_at_value(args@),
            Err(e) => spec_find_comma(args@, 0) == args@.len() && e@
                == MockErrorView::ArgumentParseError,
        },
{
    let len = args.unicode_len();
    let c1 = find_comma(args, 0);
    if c1 == len {
        return Err(MockError::ArgumentParseError);
    }
    let method_part = args.substring_char(0, c1);
    proof {
        assert(args@.subrange(0, c1 as int) =~= args@.take(spec_find_comma(args@, 0)));
    }
    let method = trim_text(method_part);
    let c2 = find_comma(args, c1 + 1);
    let value_part = args.substring_char(c1 + 1, c2);
    let value = trim_text(value_part);
    Ok((method, value))
}

} // verus!
