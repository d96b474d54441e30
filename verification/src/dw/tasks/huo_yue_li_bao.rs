//! Liveness gift bags: claims the 50 and the 80 bag.
use vstd::prelude::*;

use crate::text::{is_prefix, str_eq, str_starts_with};

verus! {

/// Which bags to claim: the 50 bag (op `"1"`) when `is_get_low` is `"0"`, the 80 bag (op
/// `"2"`) when `is_get_high` is `"0"`.
pub fn bags_to_claim(is_get_low: &str, is_get_high: &str) -> (r: (bool, bool))
    ensures
        r.0 == (is_get_low@ == "0"@),
        r.1 == (is_get_high@ == "0"@),
{
    (str_eq(is_get_low, "0"), str_eq(is_get_high, "0"))
}

/// Whether the answer to a claim is logged: all but those starting with "当" (the event is
/// not running).
pub fn claim_logged(msg: &str) -> (r: bool)
    ensures
        r == !is_prefix("当"@, msg@),
{
    !str_starts_with(msg, "当")
}

} // verus!
