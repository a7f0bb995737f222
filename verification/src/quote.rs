//! Quoting of text for display.
use vstd::prelude::*;

verus! {

/// The text that the standard library's `Debug` formatting of a string
/// gives for the characters `s`: the string between double quotes, with the
/// characters that cannot stand there escaped.
pub uninterp spec fn debug_spec(s: Seq<char>) -> Seq<char>;

/// Calls the standard library's `Debug` formatting of a string (`{:?}`).
/// Nothing is proved of it; the contract only gives its result a name, which
/// says that the same characters are always quoted in the same way.
#[verifier::external_body]
pub(crate) fn debug_quoted(s: &str) -> (r: String)
    ensures
        r@ == debug_spec(s@),
{
    format!("{:?}", s)
}

} // verus!
