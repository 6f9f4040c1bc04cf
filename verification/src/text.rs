//! Comparing texts.

use vstd::prelude::*;

verus! {

/// Whether two texts read the same.
pub fn same_text(text: &str, other: &str) -> (same: bool)
    ensures
        same == (text@ == other@),
{
    text.to_owned() == other.to_owned()
}

} // verus!
