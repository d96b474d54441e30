//! Calamity chests: two entries, each with its page and its claim.
use vstd::prelude::*;

use crate::text::str_eq;

verus! {

/// The entries: the subtype of the page and the subtype of the claim.
pub fn activities() -> (r: Vec<(u32, u32)>)
    ensures
        r@ == seq![(142u32, 143u32), (151u32, 152u32)],
{
    let mut v: Vec<(u32, u32)> = Vec::new();
    v.push((142, 143));
    v.push((151, 152));
    v
}

/// Whether the chest of an entry is to be claimed: not claimed yet (`giftFlag` `"0"`).
pub fn chest_unclaimed(gift_flag: &str) -> (r: bool)
    ensures
        r == (gift_flag@ == "0"@),
{
    str_eq(gift_flag, "0")
}

} // verus!
