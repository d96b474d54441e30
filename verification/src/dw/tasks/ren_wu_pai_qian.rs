//! The mission dispatch centre: tries the S and B missions first; when none started, it
//! refreshes for free if it can, and otherwise settles for the A missions.
use vstd::prelude::*;
use crate::text_spec::{lemma_positions_where, positions_where};

use crate::text::str_eq;

verus! {

/// A mission under way, with the time left (`"0"`: done).
#[derive(Debug, Clone)]
pub struct AcceptedMission {
    pub mission_id: String,
    pub remain_time: String,
}

/// The missions among the first `n` that are done.
pub open spec fn done_upto(list: Seq<AcceptedMission>, n: int) -> Seq<usize>
    decreases n,
{
    if n <= 0 {
        seq![]
    } else {
        let prev = done_upto(list, n - 1);
        if list[n - 1].remain_time@ == "0"@ {
            prev.push((n - 1) as usize)
        } else {
            prev
        }
    }
}

/// The positions of the missions whose reward can be claimed.
pub fn done_missions(list: &Vec<AcceptedMission>) -> (r: Vec<usize>)
    ensures
        r@ == done_upto(list@, list@.len() as int),
{
    let mut out: Vec<usize> = Vec::new();
    let mut i: usize = 0;
    while i < list.len()
        invariant
            i <= list@.len(),
            out@ == done_upto(list@, i as int),
        decreases list@.len() - i,
    {
        if str_eq(list[i].remain_time.as_str(), "0") {
            out.push(i);
        }
        i = i + 1;
    }
    out
}

/// Whether more missions can be taken today: the day's count is not reached and fewer
/// than three are under way.
pub fn can_take_more(accepted_mission_num: &str, day_mission_num: &str, under_way: usize) -> (r: bool)
    ensures
        r == (accepted_mission_num@ != day_mission_num@ && under_way < 3),
{
    !str_eq(accepted_mission_num, day_mission_num) && under_way < 3
}

/// A mission waiting to be taken; its type is `"1"` (S), `"2"` (A) or `"3"` (B).
#[derive(Debug, Clone)]
pub struct StandbyMission {
    pub accepted: String,
    pub mission_id: String,
    pub t: String,
    pub mission_name: String,
}

/// The missions among the first `n` of the wanted grade: not taken, and S or B when
/// `top` holds, A otherwise.
pub open spec fn candidates_upto(list: Seq<StandbyMission>, top: bool, n: int) -> Seq<usize>
    decreases n,
{
    if n <= 0 {
        seq![]
    } else {
        let prev = candidates_upto(list, top, n - 1);
        let m = list[n - 1];
        let grade_ok = if top { m.t@ == "1"@ || m.t@ == "3"@ } else { m.t@ == "2"@ };
        if m.accepted@ != "1"@ && grade_ok {
            prev.push((n - 1) as usize)
        } else {
            prev
        }
    }
}

/// The positions of the missions to try: the S and B ones first (`top`), the A ones when
/// settling.
pub fn candidates(list: &Vec<StandbyMission>, top: bool) -> (r: Vec<usize>)
    ensures
        r@ == candidates_upto(list@, top, list@.len() as int),
{
    let mut out: Vec<usize> = Vec::new();
    let mut i: usize = 0;
    while i < list.len()
        invariant
            i <= list@.len(),
            out@ == candidates_upto(list@, top, i as int),
        decreases list@.len() - i,
    {
        let m = &list[i];
        let grade_ok = if top {
            str_eq(m.t.as_str(), "1") || str_eq(m.t.as_str(), "3")
        } else {
            str_eq(m.t.as_str(), "2")
        };
        if !str_eq(m.accepted.as_str(), "1") && grade_ok {
            out.push(i);
        }
        i = i + 1;
    }
    out
}

/// Whether the quick dispatch worked: the answer is "设置佣兵成功".
pub fn dispatched(msg: &str) -> (r: bool)
    ensures
        r == (msg@ == "设置佣兵成功"@),
{
    str_eq(msg, "设置佣兵成功")
}

/// Whether the mission started: the answer is "任务开始执行".
pub fn started(msg: &str) -> (r: bool)
    ensures
        r == (msg@ == "任务开始执行"@),
{
    str_eq(msg, "任务开始执行")
}

/// Whether a free refresh is available: refreshing costs no beans.
pub fn free_refresh(refresh_doudou_num: &str) -> (r: bool)
    ensures
        r == (refresh_doudou_num@ == "0"@),
{
    str_eq(refresh_doudou_num, "0")
}

proof fn lemma_done_are_positions(list: Seq<AcceptedMission>, n: int)
    ensures
        done_upto(list, n) == positions_where(list, |x: AcceptedMission| x.remain_time@ == "0"@, n),
    decreases n,
{
    if n > 0 {
        lemma_done_are_positions(list, n - 1);
    }
}

/// The missions whose reward is claimed are exactly those with no time left (`"0"`), in the
/// order of the list.
pub proof fn law_done_missions(list: Seq<AcceptedMission>)
    requires
        list.len() <= usize::MAX,
    ensures
        forall|j: int| 0 <= j < list.len() ==> (done_upto(list, list.len() as int).contains(j as usize) <==> (
            (#[trigger] list[j]).remain_time@ == "0"@)),
        forall|k: int, l: int|
            0 <= k < l < done_upto(list, list.len() as int).len() ==> #[trigger]
                done_upto(list, list.len() as int)[k]
                < #[trigger] done_upto(list, list.len() as int)[l],
{
    let n = list.len() as int;
    lemma_done_are_positions(list, n);
    lemma_positions_where(list, |x: AcceptedMission| x.remain_time@ == "0"@, n);
}

proof fn lemma_candidates_are_positions(list: Seq<StandbyMission>, top: bool, n: int)
    ensures
        candidates_upto(list, top, n) == positions_where(
            list,
            |x: StandbyMission| x.accepted@ != "1"@ && (if top { x.t@ == "1"@ || x.t@ == "3"@ } else { x.t@ == "2"@ }),
            n,
        ),
    decreases n,
{
    if n > 0 {
        lemma_candidates_are_positions(list, top, n - 1);
    }
}

/// The missions that may be accepted are exactly those not accepted yet whose grade fits:
/// grades `"1"` and `"3"` when the top grade is asked, grade `"2"` otherwise; in the order
/// of the list.
pub proof fn law_candidates(list: Seq<StandbyMission>, top: bool)
    requires
        list.len() <= usize::MAX,
    ensures
        forall|j: int| 0 <= j < list.len() ==> (candidates_upto(list, top, list.len() as int).contains(j as usize) <==> (
            (#[trigger] list[j]).accepted@ != "1"@ && (if top { list[j].t@ == "1"@ || list[j].t@ == "3"@ } else { list[j].t@ == "2"@ }))),
        forall|k: int, l: int|
            0 <= k < l < candidates_upto(list, top, list.len() as int).len() ==> #[trigger]
                candidates_upto(list, top, list.len() as int)[k]
                < #[trigger] candidates_upto(list, top, list.len() as int)[l],
{
    let n = list.len() as int;
    lemma_candidates_are_positions(list, top, n);
    lemma_positions_where(list, |x: StandbyMission| x.accepted@ != "1"@ && (if top { x.t@ == "1"@ || x.t@ == "3"@ } else { x.t@ == "2"@ }), n);
}

} // verus!
