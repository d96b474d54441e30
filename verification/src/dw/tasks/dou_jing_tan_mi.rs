//! Exploring the fighting realm: claims today's reward and the cumulative reward of today.
use vstd::prelude::*;

use crate::text::str_eq;

verus! {

/// A reward entry: its id, the day it belongs to, and its status (`"1"`: can be claimed).
#[derive(Debug, Clone)]
pub struct DayReward {
    pub id: String,
    pub day: String,
    pub status: String,
}

/// An entry that can be claimed today.
pub open spec fn claimable_today(r: DayReward, today: Seq<char>) -> bool {
    r.day@ == today && r.status@ == "1"@
}

/// The first entry of `list` for the day `today` that can be claimed; only that one is
/// claimed.
pub fn first_claimable(list: &Vec<DayReward>, today: &str) -> (r: Option<usize>)
    ensures
        match r {
            Some(i) => i < list@.len() && claimable_today(list@[i as int], today@) && forall|j: int|
                0 <= j < i ==> !claimable_today(#[trigger] list@[j], today@),
            None => forall|j: int| 0 <= j < list@.len() ==> !claimable_today(#[trigger] list@[j], today@),
        },
{
    let mut i: usize = 0;
    while i < list.len()
        invariant
            i <= list@.len(),
            forall|j: int| 0 <= j < i ==> !claimable_today(#[trigger] list@[j], today@),
        decreases list@.len() - i,
    {
        if str_eq(list[i].day.as_str(), today) && str_eq(list[i].status.as_str(), "1") {
            return Some(i);
        }
        i = i + 1;
    }
    None
}

/// An entry is claimed today exactly when it belongs to today and its status is `"1"`.
pub proof fn law_claimable_today(r: DayReward, today: Seq<char>)
    ensures
        claimable_today(r, today) <==> (r.day@ == today && r.status@ == "1"@),
{
}

} // verus!
