//! The scroll maze: with a free attempt, fights until a loss.
use vstd::prelude::*;

use crate::text::{is_prefix, str_eq, str_starts_with};

verus! {

/// Whether a free attempt is left (`free_times` `"1"`).
pub fn free_attempt(free_times: &str) -> (r: bool)
    ensures
        r == (free_times@ == "1"@),
{
    str_eq(free_times, "1")
}

/// Whether to fight on: the fight was accepted and not lost (a loss starts with "弱爆了").
pub fn maze_goes_on(result: &str, msg: &str) -> (r: bool)
    ensures
        r == (result@ == "0"@ && !is_prefix("弱爆了"@, msg@)),
{
    str_eq(result, "0") && !str_starts_with(msg, "弱爆了")
}

} // verus!
