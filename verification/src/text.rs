//! Text helpers that the standard library provides and the verifier has no
//! contract for.

use vstd::prelude::*;

verus! {

/// Compares two string slices with `str`'s `==`. Trusted: the comparison holds
/// exactly when both slices hold the same characters.
#[verifier::external_body]
pub(crate) fn same_text(a: &str, b: &str) -> (same: bool)
    ensures
        same == (a@ == b@),
{
    a == b
}

} // verus!
