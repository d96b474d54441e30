//! The arena: free challenges, the daily reward, the ranking reward, and in the off season
//! ten river charts.
use vstd::prelude::*;

use crate::dw::tasks::men_pai_yao_qing_sai::{parse_u8, spec_parse_u8};
use crate::text::str_eq;

verus! {

/// What a visit of the arena starts with.
#[derive(Debug, Clone, Copy, PartialEq, Eq, Structural)]
pub enum ArenaStep {
    /// Off season: claim the ranking reward and stop.
    RankReward,
    /// A season is under way: nothing.
    InSeason,
    /// The free challenges left are no number: stop.
    BadTimes,
    /// Make this many free challenges, then look at the daily reward.
    Challenge(u8),
}

pub open spec fn spec_arena_step(can_draw_rank_reward: Seq<char>, next_season_time: Seq<char>, left_free_times: Seq<char>) -> ArenaStep {
    if can_draw_rank_reward == "1"@ {
        ArenaStep::RankReward
    } else if next_season_time != "-1"@ {
        ArenaStep::InSeason
    } else {
        match spec_parse_u8(left_free_times) {
            None => ArenaStep::BadTimes,
            Some(n) => ArenaStep::Challenge(n),
        }
    }
}

/// The arena's first step from its page.
pub fn arena_step(can_draw_rank_reward: &str, next_season_time: &str, left_free_times: &str) -> (r: ArenaStep)
    ensures
        r == spec_arena_step(can_draw_rank_reward@, next_season_time@, left_free_times@),
{
    if str_eq(can_draw_rank_reward, "1") {
        ArenaStep::RankReward
    } else if !str_eq(next_season_time, "-1") {
        ArenaStep::InSeason
    } else {
        match parse_u8(left_free_times) {
            None => ArenaStep::BadTimes,
            Some(n) => ArenaStep::Challenge(n),
        }
    }
}

/// After the challenges: whether to claim the daily reward, and whether to exchange the
/// river charts as well (only with the reward, and when switched on).
pub fn daily_reward_plan(can_draw_daily_reward: &str, exchange_on: bool) -> (r: (bool, bool))
    ensures
        r.0 == (can_draw_daily_reward@ == "1"@),
        r.1 == (can_draw_daily_reward@ == "1"@ && exchange_on),
{
    let claim = str_eq(can_draw_daily_reward, "1");
    (claim, claim && exchange_on)
}


/// The arena: off season (rank reward claimable) only the rank reward is claimed; while a
/// season runs (`next_season_time` other than `"-1"`) nothing is done; otherwise the free
/// challenges left are made, or the visit stops when that count is no number.
pub proof fn law_arena_steps(rank: Seq<char>, next: Seq<char>, times: Seq<char>)
    ensures
        (spec_arena_step(rank, next, times) == ArenaStep::RankReward) <==> rank == "1"@,
        (spec_arena_step(rank, next, times) == ArenaStep::InSeason) <==> (rank != "1"@ && next != "-1"@),
        rank != "1"@ && next == "-1"@ ==> match spec_parse_u8(times) {
            Some(n) => spec_arena_step(rank, next, times) == ArenaStep::Challenge(n),
            None => spec_arena_step(rank, next, times) == ArenaStep::BadTimes,
        },
{
}

} // verus!
