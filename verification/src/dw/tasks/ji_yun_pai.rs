//! Luck cards: claims the mission rewards, then turns every card held.
use vstd::prelude::*;

use crate::text::{parse_u64, spec_parse_u64};

verus! {

/// How many cards to turn: the `cardNum` field as a `u64`; `None` when it is no number.
pub fn cards_to_turn(card_num: &str) -> (r: Option<u64>)
    ensures
        r == spec_parse_u64(card_num@),
{
    parse_u64(card_num)
}

} // verus!
