//! Mount Hua sword debate: free challenges from the 1st to the 25th of the month, the
//! ranking reward in the off season.
use vstd::prelude::*;

use crate::dw::tasks::jing_ji_chang::{arena_step, spec_arena_step, ArenaStep};

verus! {

/// The step from the debate's page; the debate follows the arena's rules (see
/// `spec_arena_step`): ranking reward in the off season, nothing while a season runs,
/// otherwise the free challenges.
pub fn knight_arena_step(can_draw_rank_reward: &str, next_season_time: &str, left_free_times: &str) -> (r: ArenaStep)
    ensures
        r == spec_arena_step(can_draw_rank_reward@, next_season_time@, left_free_times@),
{
    arena_step(can_draw_rank_reward, next_season_time, left_free_times)
}

} // verus!
