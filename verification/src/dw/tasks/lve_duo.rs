//! Foraging war: on Tuesdays raids and claims the reward; on other days signs up and
//! claims the win/loss reward.
//!
//! A raid starts at the configured target power. Each look at the granaries raids the
//! first one whose leading defender is no stronger than the target, and looks again at the
//! same target after a raid. When every defender is stronger, the target rises by the
//! configured step (up to 99999), or the raid stops when the step is 0.
use vstd::prelude::*;

use crate::text::{is_prefix, is_suffix, str_ends_with, str_eq, str_starts_with};

verus! {

/// What a visit of the foraging war page does.
#[derive(Debug, Clone, Copy, PartialEq, Eq, Structural)]
pub struct ForageVisit {
    /// Raid and claim the reward (battle period, signed up).
    pub raid: bool,
    /// Sign up.
    pub sign_up: bool,
    /// Claim the win/loss reward.
    pub claim: bool,
}

pub open spec fn spec_forage_visit(time: Seq<char>, status: Seq<char>, signup: Seq<char>, gift: Seq<char>) -> ForageVisit {
    if time == "2"@ {
        ForageVisit { raid: !is_suffix("未报名"@, status), sign_up: false, claim: false }
    } else {
        ForageVisit { raid: false, sign_up: signup == "1"@, claim: gift == "1"@ }
    }
}

/// The visit from the page: in the battle period (`time` `"2"`) raid unless the status
/// ends in "未报名" (not signed up); otherwise sign up when `signup` is `"1"` and claim
/// when `gift` is `"1"`.
pub fn forage_visit(time: &str, status: &str, signup: &str, gift: &str) -> (r: ForageVisit)
    ensures
        r == spec_forage_visit(time@, status@, signup@, gift@),
{
    if str_eq(time, "2") {
        ForageVisit { raid: !str_ends_with(status, "未报名"), sign_up: false, claim: false }
    } else {
        ForageVisit { raid: false, sign_up: str_eq(signup, "1"), claim: str_eq(gift, "1") }
    }
}

/// A granary as the raid sees it.
#[derive(Debug, Clone)]
pub struct Granary {
    pub id: String,
    /// `"1"` when the faction holds it already.
    pub situation: String,
    /// How many defend it.
    pub defenders: usize,
    /// The whole part of the leading defender's power; `None` when it could not be read or
    /// is negative or not finite.
    pub first_power: Option<u32>,
}

/// The next step of a raid.
#[derive(Debug, Clone, Copy, PartialEq, Eq, Structural)]
pub enum RaidStep {
    /// No revival left and no blood: stop.
    Dead,
    /// Raid the granary at this position, then look again.
    Raid(usize),
    /// The power of the granary at this position cannot be used: stop.
    BadPower(usize),
    /// Every defender is stronger: look again with this target.
    Raise(u32),
    /// Every defender is stronger and the target cannot rise: stop.
    Stop,
}

/// A granary worth a look: not held, with defenders.
pub open spec fn granary_open(g: Granary) -> bool {
    g.situation@ != "1"@ && g.defenders > 0
}

/// A granary the raid acts on at `target`: open, and either its power is unusable or its
/// leading defender is no stronger than the target.
pub open spec fn granary_decides(g: Granary, target: u32) -> bool {
    granary_open(g) && (g.first_power is None || g.first_power->0 <= target)
}

/// The target after a rise: `None` when there is no step or it would pass 99999.
pub open spec fn spec_raise(target: u32, step: u32) -> Option<u32> {
    if step == 0 || target + step > 99999 {
        None
    } else {
        Some((target + step) as u32)
    }
}

pub open spec fn spec_raid_step(
    resurgence_times: Seq<char>,
    blood: Seq<char>,
    granaries: Seq<Granary>,
    target: u32,
    step: u32,
) -> RaidStep {
    if resurgence_times == "0"@ && is_prefix("0/"@, blood) {
        RaidStep::Dead
    } else if exists|i: int| 0 <= i < granaries.len() && granary_decides(#[trigger] granaries[i], target) {
        let i = choose|i: int|
            0 <= i < granaries.len() && granary_decides(granaries[i], target) && forall|j: int|
                0 <= j < i ==> !granary_decides(#[trigger] granaries[j], target);
        if granaries[i].first_power is None {
            RaidStep::BadPower(i as usize)
        } else {
            RaidStep::Raid(i as usize)
        }
    } else {
        match spec_raise(target, step) {
            Some(t) => RaidStep::Raise(t),
            None => RaidStep::Stop,
        }
    }
}

/// The next step of a raid at power `target` with rise `step` (see `spec_raid_step`): the
/// first open granary decides, by raiding when its leading defender is no stronger than
/// the target or by stopping when its power is unusable.
pub fn raid_step(resurgence_times: &str, blood: &str, granaries: &Vec<Granary>, target: u32, step: u32) -> (r: RaidStep)
    ensures
        r == spec_raid_step(resurgence_times@, blood@, granaries@, target, step),
        r matches RaidStep::Raid(i) ==> i < granaries@.len(),
        r matches RaidStep::BadPower(i) ==> i < granaries@.len(),
{
    if str_eq(resurgence_times, "0") && str_starts_with(blood, "0/") {
        return RaidStep::Dead;
    }
    let mut i: usize = 0;
    while i < granaries.len()
        invariant
            i <= granaries@.len(),
            !(resurgence_times@ == "0"@ && is_prefix("0/"@, blood@)),
            forall|j: int| 0 <= j < i ==> !granary_decides(#[trigger] granaries@[j], target),
        decreases granaries@.len() - i,
    {
        let g = &granaries[i];
        if !str_eq(g.situation.as_str(), "1") && g.defenders > 0 {
            match g.first_power {
                None => {
                    proof {
                        assert(granary_decides(granaries@[i as int], target));
                        lemma_first_decider(granaries@, target, i as int);
                    }
                    return RaidStep::BadPower(i);
                },
                Some(p) => {
                    if p <= target {
                        proof {
                            assert(granary_decides(granaries@[i as int], target));
                            lemma_first_decider(granaries@, target, i as int);
                        }
                        return RaidStep::Raid(i);
                    }
                },
            }
        }
        i = i + 1;
    }
    let total: u64 = target as u64 + step as u64;
    if step == 0 || total > 99999 {
        RaidStep::Stop
    } else {
        RaidStep::Raise(total as u32)
    }
}

proof fn lemma_first_decider(gs: Seq<Granary>, target: u32, i: int)
    requires
        0 <= i < gs.len(),
        granary_decides(gs[i], target),
        forall|j: int| 0 <= j < i ==> !granary_decides(#[trigger] gs[j], target),
    ensures
        (choose|k: int|
            0 <= k < gs.len() && granary_decides(gs[k], target) && forall|j: int|
                0 <= j < k ==> !granary_decides(#[trigger] gs[j], target)) == i,
{
    let k = choose|k: int|
        0 <= k < gs.len() && granary_decides(gs[k], target) && forall|j: int|
            0 <= j < k ==> !granary_decides(#[trigger] gs[j], target);
    assert(0 <= k < gs.len() && granary_decides(gs[k], target) && forall|j: int|
        0 <= j < k ==> !granary_decides(#[trigger] gs[j], target));
    if k < i {
        assert(!granary_decides(gs[k], target));
    }
    if k > i {
        assert(!granary_decides(gs[i], target));
    }
}

/// The target of a raid never passes 99999 and only rises: it rises by the step exactly
/// when the step is not 0 and the sum stays within 99999.
pub proof fn law_raise_bounded(target: u32, step: u32)
    ensures
        spec_raise(target, step) matches Some(t) ==> target < t <= 99999,
        spec_raise(target, step) matches Some(t) ==> t == target + step,
        spec_raise(target, step) is Some <==> (step > 0 && target + step <= 99999),
{
}


/// The foraging war: in the battle period (`time` `"2"`) raid exactly when signed up (the
/// status does not end in "未报名") and do nothing else; outside it never raid, sign up
/// when `signup` is `"1"` and claim the result when `gift` is `"1"`.
pub proof fn law_forage_visits(time: Seq<char>, status: Seq<char>, signup: Seq<char>, gift: Seq<char>)
    ensures
        spec_forage_visit(time, status, signup, gift).raid <==> (time == "2"@ && !is_suffix("未报名"@, status)),
        spec_forage_visit(time, status, signup, gift).sign_up <==> (time != "2"@ && signup == "1"@),
        spec_forage_visit(time, status, signup, gift).claim <==> (time != "2"@ && gift == "1"@),
{
}

} // verus!
