//! The sect melee: trials, cheering for the beggars' sect, rewards. A lost fight in the
//! advanced trial ground buys one trial book; the true gold scrolls are exchanged only
//! after a successful cheer.
use vstd::prelude::*;
use crate::text_spec::{lemma_positions_where, positions_where};

use crate::text::str_eq;

verus! {

/// The phase of the melee.
#[derive(Debug, Clone, Copy, PartialEq, Eq, Structural)]
pub enum MeleePhase {
    /// Trials (`duration_type` `"1"`).
    Trials,
    /// Cheering (`"2"`).
    Cheer,
    /// Rewards (`"4"`).
    Reward,
    /// Anything else: nothing to do.
    Nothing,
}

pub open spec fn spec_melee_phase(duration_type: Seq<char>) -> MeleePhase {
    if duration_type == "1"@ {
        MeleePhase::Trials
    } else if duration_type == "2"@ {
        MeleePhase::Cheer
    } else if duration_type == "4"@ {
        MeleePhase::Reward
    } else {
        MeleePhase::Nothing
    }
}

/// The phase from the melee's `duration_type`.
pub fn melee_phase(duration_type: &str) -> (r: MeleePhase)
    ensures
        r == spec_melee_phase(duration_type@),
{
    if str_eq(duration_type, "1") {
        MeleePhase::Trials
    } else if str_eq(duration_type, "2") {
        MeleePhase::Cheer
    } else if str_eq(duration_type, "4") {
        MeleePhase::Reward
    } else {
        MeleePhase::Nothing
    }
}

/// A trial ground and its status (`"2"`: cleared).
#[derive(Debug, Clone)]
pub struct Scene {
    pub id: String,
    pub status: String,
}

/// The grounds among the first `n` still to try: those not cleared.
pub open spec fn open_scenes_upto(scenes: Seq<Scene>, n: int) -> Seq<usize>
    decreases n,
{
    if n <= 0 {
        seq![]
    } else {
        let prev = open_scenes_upto(scenes, n - 1);
        if scenes[n - 1].status@ != "2"@ {
            prev.push((n - 1) as usize)
        } else {
            prev
        }
    }
}

/// The positions of the trial grounds not cleared yet, in order.
pub fn open_scenes(scenes: &Vec<Scene>) -> (r: Vec<usize>)
    ensures
        r@ == open_scenes_upto(scenes@, scenes@.len() as int),
{
    let mut out: Vec<usize> = Vec::new();
    let mut i: usize = 0;
    while i < scenes.len()
        invariant
            i <= scenes@.len(),
            out@ == open_scenes_upto(scenes@, i as int),
        decreases scenes@.len() - i,
    {
        if !str_eq(scenes[i].status.as_str(), "2") {
            out.push(i);
        }
        i = i + 1;
    }
    out
}

/// What the page of a trial ground says.
#[derive(Debug, Clone, Copy, PartialEq, Eq, Structural)]
pub enum SceneCheck {
    /// `"-1006"`: the ground before it is not cleared; stop without a word.
    Locked,
    /// Another refusal: log its message and stop.
    Refused,
    /// The fighter is down: stop.
    Fallen,
    /// Fight here.
    Ready,
}

pub open spec fn spec_scene_check(result: Seq<char>, dead: Seq<char>) -> SceneCheck {
    if result == "-1006"@ {
        SceneCheck::Locked
    } else if result != "0"@ {
        SceneCheck::Refused
    } else if dead == "0"@ {
        SceneCheck::Ready
    } else {
        SceneCheck::Fallen
    }
}

/// Whether a trial ground can be fought, from its page.
pub fn scene_check(result: &str, dead: &str) -> (r: SceneCheck)
    ensures
        r == spec_scene_check(result@, dead@),
{
    if str_eq(result, "-1006") {
        SceneCheck::Locked
    } else if !str_eq(result, "0") {
        SceneCheck::Refused
    } else if str_eq(dead, "0") {
        SceneCheck::Ready
    } else {
        SceneCheck::Fallen
    }
}

/// What follows a trial fight.
#[derive(Debug, Clone, Copy, PartialEq, Eq, Structural)]
pub enum TrialNext {
    /// Fight again.
    Continue,
    /// Buy a trial book; fight again if that worked, else stop.
    BuyBook,
    /// Stop.
    Stop,
}

pub open spec fn spec_trial_next(result: Seq<char>, dead: Seq<char>, passed: Seq<char>, scene: Seq<char>) -> TrialNext {
    if result != "0"@ {
        if result == "-1009"@ && scene == "1002"@ { TrialNext::BuyBook } else { TrialNext::Stop }
    } else if dead == "1"@ && scene != "1002"@ {
        TrialNext::Stop
    } else if passed == "1"@ && scene != "1002"@ {
        TrialNext::Stop
    } else {
        TrialNext::Continue
    }
}

/// The step after a trial fight in ground `scene`: in the advanced ground (`"1002"`) a
/// refusal for lack of books (`"-1009"`) buys one and a loss or a clear does not stop;
/// elsewhere a refusal, a loss or a clear stops.
pub fn trial_next(result: &str, dead: &str, passed: &str, scene: &str) -> (r: TrialNext)
    ensures
        r == spec_trial_next(result@, dead@, passed@, scene@),
{
    if !str_eq(result, "0") {
        if str_eq(result, "-1009") && str_eq(scene, "1002") {
            return TrialNext::BuyBook;
        }
        return TrialNext::Stop;
    }
    let advanced = str_eq(scene, "1002");
    if str_eq(dead, "1") && !advanced {
        return TrialNext::Stop;
    }
    if str_eq(passed, "1") && !advanced {
        return TrialNext::Stop;
    }
    TrialNext::Continue
}

/// How many true gold scrolls to exchange after a cheer: the configured count, none when
/// it is 0.
pub fn scroll_exchange(count: u32) -> (r: Option<u32>)
    ensures
        r == (if count == 0 { None } else { Some(count) }),
{
    if count == 0 {
        None
    } else {
        Some(count)
    }
}


/// The melee's phases: `"1"` trials, `"2"` cheering, `"4"` rewards, nothing otherwise.
pub proof fn law_melee_phases(d: Seq<char>)
    ensures
        (spec_melee_phase(d) == MeleePhase::Trials) <==> d == "1"@,
        (spec_melee_phase(d) == MeleePhase::Cheer) <==> d == "2"@,
        (spec_melee_phase(d) == MeleePhase::Reward) <==> d == "4"@,
{
    reveal_strlit("1");
    reveal_strlit("2");
    reveal_strlit("4");
    assert("1"@[0] != "2"@[0] && "1"@[0] != "4"@[0] && "2"@[0] != "4"@[0]);
}

/// A trial ground is fought only when its page is accepted and the fighter stands; a
/// locked ground (`"-1006"`) stops silently, another refusal is reported.
pub proof fn law_scene_checks(result: Seq<char>, dead: Seq<char>)
    ensures
        (spec_scene_check(result, dead) == SceneCheck::Ready) <==> (result == "0"@ && dead == "0"@),
        (spec_scene_check(result, dead) == SceneCheck::Fallen) <==> (result == "0"@ && dead != "0"@),
        (spec_scene_check(result, dead) == SceneCheck::Locked) <==> result == "-1006"@,
        (spec_scene_check(result, dead) == SceneCheck::Refused) <==> (result != "0"@ && result != "-1006"@),
{
    reveal_strlit("0");
    reveal_strlit("-1006");
    assert("0"@.len() != "-1006"@.len());
}

/// In the advanced ground (`"1002"`) the trial goes on through losses and clears and buys
/// a book when books run out (`"-1009"`); elsewhere a refusal, a loss (`dead` `"1"`) or a
/// clear (`passed` `"1"`) stops it.
pub proof fn law_trial_steps(result: Seq<char>, dead: Seq<char>, passed: Seq<char>, scene: Seq<char>)
    ensures
        (spec_trial_next(result, dead, passed, scene) == TrialNext::BuyBook) <==> (result == "-1009"@ && scene
            == "1002"@),
        scene == "1002"@ && result == "0"@ ==> spec_trial_next(result, dead, passed, scene) == TrialNext::Continue,
        scene != "1002"@ ==> ((spec_trial_next(result, dead, passed, scene) == TrialNext::Continue) <==> (result
            == "0"@ && dead != "1"@ && passed != "1"@)),
{
    reveal_strlit("0");
    reveal_strlit("-1009");
    assert("0"@.len() != "-1009"@.len());
}

proof fn lemma_open_scenes_are_positions(list: Seq<Scene>, n: int)
    ensures
        open_scenes_upto(list, n) == positions_where(list, |x: Scene| x.status@ != "2"@, n),
    decreases n,
{
    if n > 0 {
        lemma_open_scenes_are_positions(list, n - 1);
    }
}

/// The trial grounds still to fight are exactly those not cleared (status other than `"2"`),
/// in the order of the list.
pub proof fn law_open_scenes(list: Seq<Scene>)
    requires
        list.len() <= usize::MAX,
    ensures
        forall|j: int| 0 <= j < list.len() ==> (open_scenes_upto(list, list.len() as int).contains(j as usize) <==> (
            (#[trigger] list[j]).status@ != "2"@)),
        forall|k: int, l: int|
            0 <= k < l < open_scenes_upto(list, list.len() as int).len() ==> #[trigger]
                open_scenes_upto(list, list.len() as int)[k]
                < #[trigger] open_scenes_upto(list, list.len() as int)[l],
{
    let n = list.len() as int;
    lemma_open_scenes_are_positions(list, n);
    lemma_positions_where(list, |x: Scene| x.status@ != "2"@, n);
}

} // verus!
