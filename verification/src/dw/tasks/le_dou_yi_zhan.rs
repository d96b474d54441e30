//! The fighting post: claims one quenched crystal a day.
use vstd::prelude::*;

use crate::text::str_eq;

verus! {

/// Whether the crystal is still to be claimed (`if_got_award` `"0"`).
pub fn award_unclaimed(if_got_award: &str) -> (r: bool)
    ensures
        r == (if_got_award@ == "0"@),
{
    str_eq(if_got_award, "0")
}

} // verus!
