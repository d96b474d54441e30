//! Daily chests: opens the gold, silver and copper chests the keys pay for.
use vstd::prelude::*;

use crate::text::{parse_u64, spec_parse_u64};

verus! {

/// A count field read as a `u64`, 0 when it is no number.
pub open spec fn count_or_zero(s: Seq<char>) -> u64 {
    match spec_parse_u64(s) {
        Some(v) => v,
        None => 0,
    }
}

/// How many chests to open, with the chest type of each: gold (type 2) takes 30 keys,
/// silver (type 1) 14 and copper (type 0) 24.
pub fn chests_to_open(au_num: &str, ag_num: &str, cu_num: &str) -> (r: [(u64, u8); 3])
    ensures
        r@ == seq![
            (count_or_zero(au_num@) / 30, 2u8),
            (count_or_zero(ag_num@) / 14, 1u8),
            (count_or_zero(cu_num@) / 24, 0u8),
        ],
{
    let au = match parse_u64(au_num) {
        Some(v) => v,
        None => 0,
    };
    let ag = match parse_u64(ag_num) {
        Some(v) => v,
        None => 0,
    };
    let cu = match parse_u64(cu_num) {
        Some(v) => v,
        None => 0,
    };
    let r: [(u64, u8); 3] = [(au / 30, 2), (ag / 14, 1), (cu / 24, 0)];
    assert(r@ =~= seq![(au / 30, 2u8), (ag / 14, 1u8), (cu / 24, 0u8)]);
    r
}

} // verus!
