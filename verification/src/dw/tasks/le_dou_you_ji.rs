//! The fighting journal: claims the task points, claims everything at once, exchanges the
//! overflowing points at level 60.
use vstd::prelude::*;
use crate::text_spec::{lemma_positions_where, positions_where};

use crate::text::{parse_u32, spec_parse_u32, str_eq};

verus! {

/// A journal task and its status (`"1"`: can be claimed).
#[derive(Debug, Clone)]
pub struct JournalTask {
    pub task_id: String,
    pub task_status: String,
}

/// The tasks among the first `n` that can be claimed.
pub open spec fn claimable_upto(list: Seq<JournalTask>, n: int) -> Seq<usize>
    decreases n,
{
    if n <= 0 {
        seq![]
    } else {
        let prev = claimable_upto(list, n - 1);
        if list[n - 1].task_status@ == "1"@ {
            prev.push((n - 1) as usize)
        } else {
            prev
        }
    }
}

/// The positions of the tasks to claim (each followed by a claim of everything).
pub fn claimable_tasks(list: &Vec<JournalTask>) -> (r: Vec<usize>)
    ensures
        r@ == claimable_upto(list@, list@.len() as int),
{
    let mut out: Vec<usize> = Vec::new();
    let mut i: usize = 0;
    while i < list.len()
        invariant
            i <= list@.len(),
            out@ == claimable_upto(list@, i as int),
        decreases list@.len() - i,
    {
        if str_eq(list[i].task_status.as_str(), "1") {
            out.push(i);
        }
        i = i + 1;
    }
    out
}

/// The overflow exchange at the top level.
#[derive(Debug, Clone, Copy, PartialEq, Eq, Structural)]
pub enum OverflowExchange {
    /// Not level 60: none.
    NotMaxLevel,
    /// The overflow score is no number.
    BadScore,
    /// Exchange `tens` batches of ten, then `ones` single ones.
    Batches { tens: u32, ones: u32 },
}

pub open spec fn spec_overflow_exchange(lv: Seq<char>, maxscore: Seq<char>) -> OverflowExchange {
    if lv != "60"@ {
        OverflowExchange::NotMaxLevel
    } else {
        match spec_parse_u32(maxscore) {
            None => OverflowExchange::BadScore,
            Some(s) => OverflowExchange::Batches { tens: s / 10, ones: s % 10 },
        }
    }
}

/// The exchange of the overflowing points: at level 60, the points in tens and ones.
pub fn overflow_exchange(lv: &str, maxscore: &str) -> (r: OverflowExchange)
    ensures
        r == spec_overflow_exchange(lv@, maxscore@),
{
    if !str_eq(lv, "60") {
        return OverflowExchange::NotMaxLevel;
    }
    match parse_u32(maxscore) {
        None => OverflowExchange::BadScore,
        Some(s) => OverflowExchange::Batches { tens: s / 10, ones: s % 10 },
    }
}

/// Every overflowing point is exchanged: ten per batch of ten, one per single one.
pub proof fn law_batches_cover_score(s: u32)
    ensures
        (s / 10) * 10 + s % 10 == s,
{
}

proof fn lemma_claimable_are_positions(list: Seq<JournalTask>, n: int)
    ensures
        claimable_upto(list, n) == positions_where(list, |x: JournalTask| x.task_status@ == "1"@, n),
    decreases n,
{
    if n > 0 {
        lemma_claimable_are_positions(list, n - 1);
    }
}

/// The journal tasks claimed are exactly those of status `"1"`, in the order of the list.
pub proof fn law_claimable_tasks(list: Seq<JournalTask>)
    requires
        list.len() <= usize::MAX,
    ensures
        forall|j: int| 0 <= j < list.len() ==> (claimable_upto(list, list.len() as int).contains(j as usize) <==> (
            (#[trigger] list[j]).task_status@ == "1"@)),
        forall|k: int, l: int|
            0 <= k < l < claimable_upto(list, list.len() as int).len() ==> #[trigger]
                claimable_upto(list, list.len() as int)[k]
                < #[trigger] claimable_upto(list, list.len() as int)[l],
{
    let n = list.len() as int;
    lemma_claimable_are_positions(list, n);
    lemma_positions_where(list, |x: JournalTask| x.task_status@ == "1"@, n);
}

} // verus!
