//! String-slice equality.

use vstd::prelude::*;

verus! {

/// Relies on the standard library's `PartialEq` for `str`: two string
/// slices compare equal exactly when they consist of the same characters.
#[verifier::external_body]
pub fn str_eq(a: &str, b: &str) -> (r: bool)
    ensures
        r == (a@ == b@),
{
    a == b
}

} // verus!
