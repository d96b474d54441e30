//! Training: fights only with full energy (50), never drinks energy potions. While scenes
//! are left it pushes on; once all are cleared it walks the bosses in the configured order
//! and fights each boss with challenges left once, five fights at most.
use vstd::prelude::*;

use crate::common::config::LiLianBoss;
use crate::text::str_eq;

verus! {

/// What a training run does.
#[derive(Debug, Clone, Copy, PartialEq, Eq, Structural)]
pub enum LiLianMode {
    /// Energy is not full: nothing.
    Rest,
    /// Scenes are left: fight the current NPC this many times.
    Advance(u8),
    /// All scenes are cleared: the boss round.
    Bosses,
}

pub open spec fn spec_li_lian_mode(energy: Seq<char>, next_npc_id: Seq<char>) -> LiLianMode {
    if energy != "50"@ {
        LiLianMode::Rest
    } else if next_npc_id != "0"@ {
        LiLianMode::Advance(5)
    } else {
        LiLianMode::Bosses
    }
}

/// The mode from the energy (`"50"` is full) and the next scene's NPC (`"0"`: none left).
pub fn li_lian_mode(energy: &str, next_npc_id: &str) -> (r: LiLianMode)
    ensures
        r == spec_li_lian_mode(energy@, next_npc_id@),
{
    if !str_eq(energy, "50") {
        LiLianMode::Rest
    } else if !str_eq(next_npc_id, "0") {
        LiLianMode::Advance(5)
    } else {
        LiLianMode::Bosses
    }
}

/// The scenes of the boss round, in the configured order.
pub fn boss_maps(order: &Vec<LiLianBoss>) -> (r: Vec<&'static str>)
    ensures
        r@.len() == order@.len(),
        forall|i: int| 0 <= i < r@.len() ==> (#[trigger] r@[i])@ == order@[i].spec_mapid(),
{
    let mut out: Vec<&'static str> = Vec::new();
    let mut i: usize = 0;
    while i < order.len()
        invariant
            i <= order@.len(),
            out@.len() == i,
            forall|j: int| 0 <= j < i ==> (#[trigger] out@[j])@ == order@[j].spec_mapid(),
        decreases order@.len() - i,
    {
        out.push(order[i].mapid());
        i = i + 1;
    }
    out
}

/// The state of a boss round: how many bosses were fought.
#[derive(Debug, Clone, Copy, PartialEq, Eq, Structural)]
pub struct BossRound {
    pub fights: u8,
}

impl BossRound {
    pub fn new() -> (r: BossRound)
        ensures
            r.fights == 0,
    {
        BossRound { fights: 0 }
    }

    /// Whether the round is over: five fights were made.
    pub fn done(&self) -> (r: bool)
        ensures
            r == (self.fights >= 5),
    {
        self.fights >= 5
    }

    /// Whether to fight a boss whose scene reports `challenge_times` left; a fight is
    /// counted.
    pub fn take(&mut self, challenge_times: &str) -> (r: bool)
        requires
            old(self).fights < 5,
        ensures
            r == (challenge_times@ != "0"@),
            final(self).fights == (if r { old(self).fights + 1 } else { old(self).fights as int }),
    {
        if str_eq(challenge_times, "0") {
            false
        } else {
            self.fights = self.fights + 1;
            true
        }
    }
}

/// A boss round never fights more than five bosses: each fight is taken only while fewer
/// than five were made, and adds one.
pub proof fn law_boss_round_bounded(before: u8, fought: bool)
    requires
        before < 5,
    ensures
        (if fought { before + 1 } else { before as int }) <= 5,
{
}


/// Training only starts with full energy (`"50"`); while scenes are left it fights the
/// current NPC five times, and once all are cleared it turns to the bosses.
pub proof fn law_li_lian_modes(energy: Seq<char>, next_npc_id: Seq<char>)
    ensures
        (spec_li_lian_mode(energy, next_npc_id) == LiLianMode::Rest) <==> energy != "50"@,
        (spec_li_lian_mode(energy, next_npc_id) == LiLianMode::Advance(5)) <==> (energy == "50"@ && next_npc_id != "0"@),
        (spec_li_lian_mode(energy, next_npc_id) == LiLianMode::Bosses) <==> (energy == "50"@ && next_npc_id == "0"@),
{
}

} // verus!
