//! Texts.

use vstd::prelude::*;

verus! {

/// Compares two texts with `str`'s `==`, which holds exactly where they are
/// the same sequence of characters.
#[verifier::external_body]
pub(crate) fn same_text(left: &str, right: &str) -> (same: bool)
    ensures
        same == (left@ == right@),
{
    left == right
}

} // verus!
