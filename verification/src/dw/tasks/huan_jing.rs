//! The illusion realm: fights in the highest stage reached and claims the chests.
use vstd::prelude::*;
use crate::text_spec::{lemma_positions_where, positions_where};

use crate::text::{parse_u32, spec_parse_u32, str_eq};

verus! {

/// What a visit of the realm does.
#[derive(Debug, Clone, Copy, PartialEq, Eq, Structural)]
pub enum MistyStep {
    /// Inside a stage: fight it first when it was not fought (`fight`), then leave.
    InStage { fight: bool },
    /// No challenge left today.
    NoTimes,
    /// The highest stage is no number.
    BadMaxStage,
    /// The stage count is no number.
    BadStageNum,
    /// Enter this stage, fight, then leave.
    Enter(u32),
}

pub open spec fn spec_misty_step(
    cur_stage: Seq<char>,
    can_return: Seq<char>,
    challenge_times: Seq<char>,
    max_stage: Seq<char>,
    stage_num: Seq<char>,
) -> MistyStep {
    if cur_stage != "0"@ {
        MistyStep::InStage { fight: can_return == "0"@ }
    } else if challenge_times == "0/1"@ {
        MistyStep::NoTimes
    } else {
        match spec_parse_u32(max_stage) {
            None => MistyStep::BadMaxStage,
            Some(m) => match spec_parse_u32(stage_num) {
                None => MistyStep::BadStageNum,
                Some(s) => MistyStep::Enter(if s <= m { s } else { m }),
            },
        }
    }
}

/// The step from the realm's page: the stage entered is the smaller of the stage count and
/// the highest stage.
pub fn misty_step(cur_stage: &str, can_return: &str, challenge_times: &str, max_stage: &str, stage_num: &str) -> (r: MistyStep)
    ensures
        r == spec_misty_step(cur_stage@, can_return@, challenge_times@, max_stage@, stage_num@),
{
    if !str_eq(cur_stage, "0") {
        return MistyStep::InStage { fight: str_eq(can_return, "0") };
    }
    if str_eq(challenge_times, "0/1") {
        return MistyStep::NoTimes;
    }
    let m = match parse_u32(max_stage) {
        Some(v) => v,
        None => return MistyStep::BadMaxStage,
    };
    let s = match parse_u32(stage_num) {
        Some(v) => v,
        None => return MistyStep::BadStageNum,
    };
    MistyStep::Enter(if s <= m { s } else { m })
}

/// Whether to fight on after a fight: only when it succeeded and earned points.
pub fn fight_goes_on(result: &str, reward_points: &str) -> (r: bool)
    ensures
        r == (result@ == "0"@ && reward_points@ != "0"@),
{
    str_eq(result, "0") && !str_eq(reward_points, "0")
}

/// A chest and its status (`"0"`: can be claimed).
#[derive(Debug, Clone)]
pub struct Chest {
    pub id: String,
    pub status: String,
}

/// The chests among the first `n` that can be claimed.
pub open spec fn chests_upto(list: Seq<Chest>, n: int) -> Seq<usize>
    decreases n,
{
    if n <= 0 {
        seq![]
    } else {
        let prev = chests_upto(list, n - 1);
        if list[n - 1].status@ == "0"@ {
            prev.push((n - 1) as usize)
        } else {
            prev
        }
    }
}

/// The positions of the chests that can be claimed.
pub fn open_chests(list: &Vec<Chest>) -> (r: Vec<usize>)
    ensures
        r@ == chests_upto(list@, list@.len() as int),
{
    let mut out: Vec<usize> = Vec::new();
    let mut i: usize = 0;
    while i < list.len()
        invariant
            i <= list@.len(),
            out@ == chests_upto(list@, i as int),
        decreases list@.len() - i,
    {
        if str_eq(list[i].status.as_str(), "0") {
            out.push(i);
        }
        i = i + 1;
    }
    out
}


/// The realm: inside a stage, fight it first exactly when it was not fought yet
/// (`can_return` `"0"`); outside, with a challenge left, enter the highest stage reached
/// but never past the realm's highest stage.
pub proof fn law_misty_steps(cur: Seq<char>, can_return: Seq<char>, times: Seq<char>, max: Seq<char>, num: Seq<char>)
    ensures
        cur != "0"@ ==> spec_misty_step(cur, can_return, times, max, num) == (MistyStep::InStage {
            fight: can_return == "0"@,
        }),
        cur == "0"@ && times == "0/1"@ ==> spec_misty_step(cur, can_return, times, max, num) == MistyStep::NoTimes,
        cur == "0"@ && times != "0/1"@ ==> match (spec_parse_u32(max), spec_parse_u32(num)) {
            (None, _) => spec_misty_step(cur, can_return, times, max, num) == MistyStep::BadMaxStage,
            (Some(_), None) => spec_misty_step(cur, can_return, times, max, num) == MistyStep::BadStageNum,
            (Some(m), Some(n)) => (spec_misty_step(cur, can_return, times, max, num) matches MistyStep::Enter(s) && s
                <= m && s <= n && (s == m || s == n)),
        },
{
}

proof fn lemma_chests_are_positions(list: Seq<Chest>, n: int)
    ensures
        chests_upto(list, n) == positions_where(list, |x: Chest| x.status@ == "0"@, n),
    decreases n,
{
    if n > 0 {
        lemma_chests_are_positions(list, n - 1);
    }
}

/// The chests claimed are exactly those of status `"0"`, in the order of the list.
pub proof fn law_chests_claimed(list: Seq<Chest>)
    requires
        list.len() <= usize::MAX,
    ensures
        forall|j: int| 0 <= j < list.len() ==> (chests_upto(list, list.len() as int).contains(j as usize) <==> (
            (#[trigger] list[j]).status@ == "0"@)),
        forall|k: int, l: int|
            0 <= k < l < chests_upto(list, list.len() as int).len() ==> #[trigger]
                chests_upto(list, list.len() as int)[k]
                < #[trigger] chests_upto(list, list.len() as int)[l],
{
    let n = list.len() as int;
    lemma_chests_are_positions(list, n);
    lemma_positions_where(list, |x: Chest| x.status@ == "0"@, n);
}

} // verus!
