//! Case folding for keyword sanitising.

use vstd::prelude::*;

verus! {

/// The Unicode uppercase of a text; a function of the characters alone.
pub uninterp spec fn upper_of(s: Seq<char>) -> Seq<char>;

/// Relies on str::to_uppercase: the Unicode uppercase of the text, which
/// depends on the characters alone.
#[verifier::external_body]
pub(crate) fn to_uppercase_string(s: &str) -> (r: String)
    ensures
        r@ == upper_of(s@),
{
    s.to_uppercase()
}

} // verus!
