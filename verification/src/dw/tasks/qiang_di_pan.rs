//! Seizing manors: the free conquest and the daily reward, from five o'clock on.
use vstd::prelude::*;
use vstd::string::StringSliceAdditionalSpecFns;

use crate::text::str_eq;

verus! {

/// Whether the task runs at this hour of the day: not before five.
pub fn manor_hours(hour: u32) -> (r: bool)
    ensures
        r == !(hour < 5),
{
    !(hour < 5)
}

/// What the manor page leads to.
#[derive(Debug, Clone, Copy, PartialEq, Eq, Structural)]
pub enum ManorStep {
    /// Not a lord (`"-1"`): conquer a manor if a free attack is left, then stop.
    Conquer,
    /// A lord: claim the daily reward.
    DailyReward,
    /// Refused: log and stop.
    Refused,
}

pub open spec fn spec_manor_step(result: Seq<char>) -> ManorStep {
    if result == "-1"@ {
        ManorStep::Conquer
    } else if result != "0"@ {
        ManorStep::Refused
    } else {
        ManorStep::DailyReward
    }
}

/// The step from the manor page's `result`.
pub fn manor_step(result: &str) -> (r: ManorStep)
    ensures
        r == spec_manor_step(result@),
{
    if str_eq(result, "-1") {
        ManorStep::Conquer
    } else if !str_eq(result, "0") {
        ManorStep::Refused
    } else {
        ManorStep::DailyReward
    }
}

/// Whether today's free attack is left, from the time of the newest record: no record
/// means yes; a record of today reads `HH/MM` (five bytes), one of an earlier day
/// `MM/DD/HH/MM`.
pub fn free_attack_left(first_time: Option<&str>) -> (r: bool)
    ensures
        r == match first_time {
            None => true,
            Some(t) => t.spec_bytes().len() != 5,
        },
{
    match first_time {
        None => true,
        Some(t) => t.as_bytes().len() != 5,
    }
}


/// The manor page: not a lord (`"-1"`) leads to a conquest, a lord (`"0"`) claims the
/// daily reward, any other answer is a refusal.
pub proof fn law_manor_steps(result: Seq<char>)
    ensures
        (spec_manor_step(result) == ManorStep::Conquer) <==> result == "-1"@,
        (spec_manor_step(result) == ManorStep::DailyReward) <==> result == "0"@,
        (spec_manor_step(result) == ManorStep::Refused) <==> (result != "-1"@ && result != "0"@),
{
    reveal_strlit("0");
    reveal_strlit("-1");
    assert("0"@.len() != "-1"@.len());
}

} // verus!
