//! Validity of return expressions in the host language's grammar.
//!
//! The grammar itself is outside this library's scope: whether a given text
//! is a well-formed expression is a fixed function of the text, given a name
//! here and decided by `syn`.

use vstd::prelude::*;

verus! {

/// Whether `s` is a syntactically valid expression of the host grammar.
pub uninterp spec fn expr_parses(s: Seq<char>) -> bool;

/// Relies on `syn::parse_str::<syn::Expr>`: whether a text parses as an
/// expression depends on the text alone.
#[verifier::external_body]
pub(crate) fn expr_is_valid(s: &str) -> (r: bool)
    ensures
        r == expr_parses(s@),
{
    syn::parse_str::<syn::Expr>(s).is_ok()
}

} // verus!
