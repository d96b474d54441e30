//! Sharing: shares every day, claims the share rewards, resets the shares once every
//! reward was claimed. When shares are missing it climbs the tower of the fighting gods
//! (never spending paid attempts).
use vstd::prelude::*;
use crate::text_spec::{lemma_positions_where, positions_where};

use crate::text::{parse_u32, parse_u64, spec_parse_u32, spec_parse_u64, str_eq};

verus! {

/// An entry of the share page.
#[derive(Debug, Clone)]
pub struct ShareInfo {
    pub share_type: String,
    /// `"1"` when this share can be made.
    pub can_share: String,
}

/// The entries among the first `n` that can be shared.
pub open spec fn shareable_upto(infos: Seq<ShareInfo>, n: int) -> Seq<usize>
    decreases n,
{
    if n <= 0 {
        seq![]
    } else {
        let prev = shareable_upto(infos, n - 1);
        if infos[n - 1].can_share@ == "1"@ {
            prev.push((n - 1) as usize)
        } else {
            prev
        }
    }
}

/// The positions of the entries that can be shared, in order.
pub fn shareable(infos: &Vec<ShareInfo>) -> (r: Vec<usize>)
    ensures
        r@ == shareable_upto(infos@, infos@.len() as int),
{
    let mut out: Vec<usize> = Vec::new();
    let mut i: usize = 0;
    while i < infos.len()
        invariant
            i <= infos@.len(),
            out@ == shareable_upto(infos@, i as int),
        decreases infos@.len() - i,
    {
        if str_eq(infos[i].can_share.as_str(), "1") {
            out.push(i);
        }
        i = i + 1;
    }
    out
}

/// Whether today's shares are used up: the day's count equals the day's maximum.
pub fn shares_used_up(day_share_times: &str, day_max_share_times: &str) -> (r: bool)
    ensures
        r == (day_share_times@ == day_max_share_times@),
{
    str_eq(day_share_times, day_max_share_times)
}

/// The cooldown of the tower in seconds: the field read as a `u64`, 10 when it is no number.
pub fn cooldown_secs(left_fight_time: &str) -> (r: u64)
    ensures
        r == (match spec_parse_u64(left_fight_time@) {
            Some(v) => v,
            None => 10,
        }),
{
    match parse_u64(left_fight_time) {
        Some(v) => v,
        None => 10,
    }
}

/// How a visit of the tower starts.
#[derive(Debug, Clone, Copy, PartialEq, Eq, Structural)]
pub enum TowerStart {
    /// Nothing to do: no free attempt and no climb under way.
    Stop,
    /// The last climb was lost or finished and no free attempt is left: end it and stop.
    EndAndStop,
    /// The last climb was lost or finished: end it, wait for the cooldown, then climb.
    EndThenClimb,
    /// Climb.
    Climb,
}

pub open spec fn tower_over(status: Seq<char>) -> bool {
    status == "2"@ || status == "3"@
}

pub open spec fn spec_tower_start(status: Seq<char>, day_left_times: Seq<char>) -> TowerStart {
    if tower_over(status) {
        if day_left_times == "0/1"@ { TowerStart::EndAndStop } else { TowerStart::EndThenClimb }
    } else if day_left_times == "0/1"@ && status == "0"@ {
        TowerStart::Stop
    } else {
        TowerStart::Climb
    }
}

/// The start of a tower visit from its `status` (`"2"` lost, `"3"` cleared, `"0"` not
/// started) and the free attempts left (`"0/1"` none).
pub fn tower_start(status: &str, day_left_times: &str) -> (r: TowerStart)
    ensures
        r == spec_tower_start(status@, day_left_times@),
{
    if str_eq(status, "2") || str_eq(status, "3") {
        if str_eq(day_left_times, "0/1") {
            TowerStart::EndAndStop
        } else {
            TowerStart::EndThenClimb
        }
    } else if str_eq(day_left_times, "0/1") && str_eq(status, "0") {
        TowerStart::Stop
    } else {
        TowerStart::Climb
    }
}

/// What follows a fight in the tower.
#[derive(Debug, Clone, Copy, PartialEq, Eq, Structural)]
pub enum TowerNext {
    /// Lost or cleared: end the climb and stop.
    End,
    /// The current layer is no number: stop.
    BadLayer,
    /// Fight the next layer.
    Continue,
    /// A tenth layer was passed: look at the shares.
    Checkpoint,
}

/// The layer just fought (one below the current one) is a multiple of ten. A current layer
/// of 0 has no layer below it and is no checkpoint.
pub open spec fn is_checkpoint(layer: u32) -> bool {
    layer >= 1 && (layer - 1) % 10 == 0
}

pub open spec fn spec_tower_next(status: Seq<char>, cur_layer: Seq<char>) -> TowerNext {
    if tower_over(status) {
        TowerNext::End
    } else {
        match spec_parse_u32(cur_layer) {
            None => TowerNext::BadLayer,
            Some(l) => if is_checkpoint(l) { TowerNext::Checkpoint } else { TowerNext::Continue },
        }
    }
}

/// The step after a fight, from the tower's `status` and its current layer.
pub fn tower_next(status: &str, cur_layer: &str) -> (r: TowerNext)
    ensures
        r == spec_tower_next(status@, cur_layer@),
{
    if str_eq(status, "2") || str_eq(status, "3") {
        return TowerNext::End;
    }
    match parse_u32(cur_layer) {
        None => TowerNext::BadLayer,
        Some(l) => {
            if l >= 1 && (l - 1) % 10 == 0 {
                TowerNext::Checkpoint
            } else {
                TowerNext::Continue
            }
        },
    }
}

/// A tower that is lost (`"2"`) or cleared (`"3"`) ends the climb after a fight, whatever
/// the layer; any other status goes on to read the layer. The same statuses make a visit
/// start by ending the last climb.
pub proof fn law_over_tower_ends(status: Seq<char>, cur_layer: Seq<char>, day_left_times: Seq<char>)
    ensures
        (status == "2"@ || status == "3"@) ==> spec_tower_next(status, cur_layer) == TowerNext::End,
        !(status == "2"@ || status == "3"@) ==> spec_tower_next(status, cur_layer) != TowerNext::End,
        (spec_tower_next(status, cur_layer) == TowerNext::End) == (spec_tower_start(status, day_left_times)
            == TowerStart::EndAndStop || spec_tower_start(status, day_left_times) == TowerStart::EndThenClimb),
{
}

/// After a fight on a tower still under way, the climb stops at a layer that is no
/// number, reaches a checkpoint exactly when the layer just fought is a positive multiple
/// of ten plus one below the current one, and goes on otherwise.
pub proof fn law_tower_layers(status: Seq<char>, cur_layer: Seq<char>)
    requires
        status != "2"@,
        status != "3"@,
    ensures
        spec_parse_u32(cur_layer) is None ==> spec_tower_next(status, cur_layer) == TowerNext::BadLayer,
        spec_parse_u32(cur_layer) matches Some(l) ==> (spec_tower_next(status, cur_layer) == TowerNext::Checkpoint
            <==> (l >= 1 && (l - 1) % 10 == 0)),
        spec_parse_u32(cur_layer) matches Some(l) ==> (spec_tower_next(status, cur_layer) == TowerNext::Continue
            <==> !(l >= 1 && (l - 1) % 10 == 0)),
{
}

/// A visit with no free attempt starts nothing when no climb is under way (`"0"`), ends a
/// lost or cleared climb and stops, and otherwise climbs; with a free attempt a lost or
/// cleared climb is ended before climbing again.
pub proof fn law_tower_start(status: Seq<char>, day_left_times: Seq<char>)
    ensures
        (status == "2"@ || status == "3"@) && day_left_times == "0/1"@ ==> spec_tower_start(status, day_left_times)
            == TowerStart::EndAndStop,
        (status == "2"@ || status == "3"@) && day_left_times != "0/1"@ ==> spec_tower_start(status, day_left_times)
            == TowerStart::EndThenClimb,
        status == "0"@ && day_left_times == "0/1"@ ==> spec_tower_start(status, day_left_times) == TowerStart::Stop,
        !(status == "2"@ || status == "3"@) && !(status == "0"@ && day_left_times == "0/1"@) ==> spec_tower_start(
            status,
            day_left_times,
        ) == TowerStart::Climb,
{
    reveal_strlit("0");
    reveal_strlit("2");
    reveal_strlit("3");
    assert("0"@[0] != "2"@[0] && "0"@[0] != "3"@[0]);
}

/// A reward entry of the share page.
#[derive(Debug, Clone)]
pub struct AwardInfo {
    pub gift_type: String,
    /// `"1"` when the reward can be claimed.
    pub get_award: String,
}

/// What to do with the share rewards.
#[derive(Debug, Clone)]
pub enum RewardPlan {
    /// Claim the rewards at these positions.
    Claim(Vec<usize>),
    /// Every reward was claimed: reset the shares.
    Reset,
    /// Nothing.
    Nothing,
}

/// The claimable rewards among the first `n`.
pub open spec fn awards_upto(infos: Seq<AwardInfo>, n: int) -> Seq<usize>
    decreases n,
{
    if n <= 0 {
        seq![]
    } else {
        let prev = awards_upto(infos, n - 1);
        if infos[n - 1].get_award@ == "1"@ {
            prev.push((n - 1) as usize)
        } else {
            prev
        }
    }
}

/// The reward step: while the shares are not all done (`share_done` `"0"`) claim what can
/// be claimed; once all are done (`"1"`) reset them.
pub fn reward_plan(share_done: &str, infos: &Vec<AwardInfo>) -> (r: RewardPlan)
    ensures
        share_done@ == "0"@ ==> (r matches RewardPlan::Claim(v) && v@ == awards_upto(
            infos@,
            infos@.len() as int,
        )),
        share_done@ == "1"@ ==> r is Reset,
        share_done@ != "0"@ && share_done@ != "1"@ ==> r is Nothing,
{
    proof {
        reveal_strlit("0");
        reveal_strlit("1");
        assert("0"@[0] != "1"@[0]);
        assert("0"@ != "1"@);
    }
    if str_eq(share_done, "0") {
        let mut out: Vec<usize> = Vec::new();
        let mut i: usize = 0;
        while i < infos.len()
            invariant
                i <= infos@.len(),
                out@ == awards_upto(infos@, i as int),
            decreases infos@.len() - i,
        {
            if str_eq(infos[i].get_award.as_str(), "1") {
                out.push(i);
            }
            i = i + 1;
        }
        RewardPlan::Claim(out)
    } else if str_eq(share_done, "1") {
        RewardPlan::Reset
    } else {
        RewardPlan::Nothing
    }
}

proof fn lemma_shareable_are_positions(list: Seq<ShareInfo>, n: int)
    ensures
        shareable_upto(list, n) == positions_where(list, |x: ShareInfo| x.can_share@ == "1"@, n),
    decreases n,
{
    if n > 0 {
        lemma_shareable_are_positions(list, n - 1);
    }
}

/// The entries shared are exactly those that can be shared (`"1"`), in the order of the list.
pub proof fn law_shareable(list: Seq<ShareInfo>)
    requires
        list.len() <= usize::MAX,
    ensures
        forall|j: int| 0 <= j < list.len() ==> (shareable_upto(list, list.len() as int).contains(j as usize) <==> (
            (#[trigger] list[j]).can_share@ == "1"@)),
        forall|k: int, l: int|
            0 <= k < l < shareable_upto(list, list.len() as int).len() ==> #[trigger]
                shareable_upto(list, list.len() as int)[k]
                < #[trigger] shareable_upto(list, list.len() as int)[l],
{
    let n = list.len() as int;
    lemma_shareable_are_positions(list, n);
    lemma_positions_where(list, |x: ShareInfo| x.can_share@ == "1"@, n);
}

proof fn lemma_awards_are_positions(list: Seq<AwardInfo>, n: int)
    ensures
        awards_upto(list, n) == positions_where(list, |x: AwardInfo| x.get_award@ == "1"@, n),
    decreases n,
{
    if n > 0 {
        lemma_awards_are_positions(list, n - 1);
    }
}

/// The rewards claimed are exactly those that can be claimed (`"1"`), in the order of the
/// list.
pub proof fn law_awards(list: Seq<AwardInfo>)
    requires
        list.len() <= usize::MAX,
    ensures
        forall|j: int| 0 <= j < list.len() ==> (awards_upto(list, list.len() as int).contains(j as usize) <==> (
            (#[trigger] list[j]).get_award@ == "1"@)),
        forall|k: int, l: int|
            0 <= k < l < awards_upto(list, list.len() as int).len() ==> #[trigger]
                awards_upto(list, list.len() as int)[k]
                < #[trigger] awards_upto(list, list.len() as int)[l],
{
    let n = list.len() as int;
    lemma_awards_are_positions(list, n);
    lemma_positions_where(list, |x: AwardInfo| x.get_award@ == "1"@, n);
}

} // verus!
