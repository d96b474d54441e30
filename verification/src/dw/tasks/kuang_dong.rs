//! The faction mine: challenges every day, claims the ranking reward and opens the
//! configured instance.
use vstd::prelude::*;

use crate::common::config::{KuangDongFloor, KuangDongFuBen, KuangDongMode};
use crate::text::{push_str, str_eq};

verus! {

/// The next step in the mine.
#[derive(Debug, Clone, Copy, PartialEq, Eq, Structural)]
pub enum MineStep {
    /// A reward is waiting: claim it, then look again.
    ClaimReward,
    /// No instance is open and the account may open one: open it, then look again.
    OpenInstance,
    /// Challenge, then look again.
    Fight,
    /// Nothing more today.
    Stop,
}

pub open spec fn spec_mine_step(
    reward_message: Seq<char>,
    current_dungeon_floor: Seq<char>,
    privilege_granted: Seq<char>,
    fight_times: Seq<char>,
) -> MineStep {
    if reward_message.len() > 0 {
        MineStep::ClaimReward
    } else if current_dungeon_floor == "0"@ {
        if privilege_granted == "0"@ { MineStep::Stop } else { MineStep::OpenInstance }
    } else if fight_times == "3"@ {
        MineStep::Stop
    } else {
        MineStep::Fight
    }
}

/// The step from the mine page: a waiting reward first; without an open instance, open
/// one when allowed; after three challenges, stop; else challenge.
pub fn mine_step(
    reward_message: &str,
    current_dungeon_floor: &str,
    privilege_granted: &str,
    fight_times: &str,
) -> (r: MineStep)
    ensures
        r == spec_mine_step(reward_message@, current_dungeon_floor@, privilege_granted@, fight_times@),
{
    if !reward_message.is_empty() {
        MineStep::ClaimReward
    } else if str_eq(current_dungeon_floor, "0") {
        if str_eq(privilege_granted, "0") {
            MineStep::Stop
        } else {
            MineStep::OpenInstance
        }
    } else if str_eq(fight_times, "3") {
        MineStep::Stop
    } else {
        MineStep::Fight
    }
}

pub open spec fn floor_value(f: KuangDongFloor) -> Seq<char> {
    match f {
        KuangDongFloor::F1 => "1"@,
        KuangDongFloor::F2 => "2"@,
        KuangDongFloor::F3 => "3"@,
        KuangDongFloor::F4 => "4"@,
        KuangDongFloor::F5 => "5"@,
    }
}

pub open spec fn mode_value(m: KuangDongMode) -> Seq<char> {
    match m {
        KuangDongMode::Easy => "1"@,
        KuangDongMode::Normal => "2"@,
        KuangDongMode::Hard => "3"@,
    }
}

/// The request that opens the configured instance:
/// `cmd=factionmine&op=start&floor=F&mode=M`.
pub fn start_command(cfg: &KuangDongFuBen) -> (r: String)
    ensures
        r@ == "cmd=factionmine&op=start&floor="@ + floor_value(cfg.ceng_shu) + "&mode="@ + mode_value(cfg.mo_shi),
{
    let mut s = String::new();
    push_str(&mut s, "cmd=factionmine&op=start&floor=");
    push_str(&mut s, cfg.ceng_shu.api_value());
    push_str(&mut s, "&mode=");
    push_str(&mut s, cfg.mo_shi.api_value());
    s
}


/// The mine: a waiting reward is claimed first; with no instance open one is opened when
/// the account may, else the day stops; in an open instance it fights until three fights
/// were made.
pub proof fn law_mine_steps(reward: Seq<char>, floor: Seq<char>, privilege: Seq<char>, fights: Seq<char>)
    ensures
        reward.len() > 0 ==> spec_mine_step(reward, floor, privilege, fights) == MineStep::ClaimReward,
        (spec_mine_step(reward, floor, privilege, fights) == MineStep::OpenInstance) <==> (reward.len() == 0
            && floor == "0"@ && privilege != "0"@),
        (spec_mine_step(reward, floor, privilege, fights) == MineStep::Fight) <==> (reward.len() == 0
            && floor != "0"@ && fights != "3"@),
        (spec_mine_step(reward, floor, privilege, fights) == MineStep::Stop) <==> (reward.len() == 0 && ((floor
            == "0"@ && privilege == "0"@) || (floor != "0"@ && fights == "3"@))),
{
}

/// The floors 1 to 5 go into the request as `"1"` to `"5"`, and the modes easy, normal and
/// hard as `"1"`, `"2"` and `"3"`.
pub proof fn law_start_values()
    ensures
        floor_value(KuangDongFloor::F1) == "1"@,
        floor_value(KuangDongFloor::F2) == "2"@,
        floor_value(KuangDongFloor::F3) == "3"@,
        floor_value(KuangDongFloor::F4) == "4"@,
        floor_value(KuangDongFloor::F5) == "5"@,
        mode_value(KuangDongMode::Easy) == "1"@,
        mode_value(KuangDongMode::Normal) == "2"@,
        mode_value(KuangDongMode::Hard) == "3"@,
{
}

} // verus!
