//! The dream journey: the normal trip, the dream trips and the rewards on Thursdays.
//!
//! Dream tickets are spent only when there are at least as many as the configured maximum
//! and the maximum covers every place not visited yet.
use vstd::prelude::*;
use crate::text_spec::{lemma_positions_where, positions_where};

use crate::text::{parse_u32, spec_parse_u32, str_eq};

verus! {

/// A place of the map and its status (`"0"`: not visited; `"1"`: reward to claim).
#[derive(Debug, Clone)]
pub struct Place {
    pub id: String,
    pub status: String,
}

/// The places among the first `n` whose status is `s`.
pub open spec fn places_upto(places: Seq<Place>, s: Seq<char>, n: int) -> Seq<usize>
    decreases n,
{
    if n <= 0 {
        seq![]
    } else {
        let prev = places_upto(places, s, n - 1);
        if places[n - 1].status@ == s {
            prev.push((n - 1) as usize)
        } else {
            prev
        }
    }
}

/// The positions of the places whose status is `status`, in order.
pub fn places_with_status(places: &Vec<Place>, status: &str) -> (r: Vec<usize>)
    ensures
        r@ == places_upto(places@, status@, places@.len() as int),
{
    let mut out: Vec<usize> = Vec::new();
    let mut i: usize = 0;
    while i < places.len()
        invariant
            i <= places@.len(),
            out@ == places_upto(places@, status@, i as int),
        decreases places@.len() - i,
    {
        if str_eq(places[i].status.as_str(), status) {
            out.push(i);
        }
        i = i + 1;
    }
    out
}

proof fn lemma_places_len(places: Seq<Place>, s: Seq<char>, n: int)
    requires
        0 <= n <= places.len(),
    ensures
        places_upto(places, s, n).len() <= n,
    decreases n,
{
    if n > 0 {
        lemma_places_len(places, s, n - 1);
    }
}

/// The dream trips to make: `None` when the ticket count is no number; otherwise the
/// places not visited yet when there are at least `max_count` tickets and `max_count`
/// covers all of them, else none.
pub fn dream_trips(dreamticket: &str, max_count: u32, places: &Vec<Place>) -> (r: Option<Vec<usize>>)
    requires
        places@.len() <= u32::MAX,
    ensures
        spec_parse_u32(dreamticket@) is None ==> r is None,
        spec_parse_u32(dreamticket@) is Some ==> (r matches Some(v) && {
            let unvisited = places_upto(places@, "0"@, places@.len() as int);
            let tickets = spec_parse_u32(dreamticket@)->0;
            if tickets >= max_count && max_count >= unvisited.len() {
                v@ == unvisited
            } else {
                v@.len() == 0
            }
        }),
{
    let tickets = match parse_u32(dreamticket) {
        Some(v) => v,
        None => return None,
    };
    let unvisited = places_with_status(places, "0");
    proof {
        lemma_places_len(places@, "0"@, places@.len() as int);
    }
    let count = unvisited.len() as u32;
    if tickets >= max_count && max_count >= count {
        Some(unvisited)
    } else {
        Some(Vec::new())
    }
}

proof fn lemma_places_are_positions(list: Seq<Place>, s: Seq<char>, n: int)
    ensures
        places_upto(list, s, n) == positions_where(list, |x: Place| x.status@ == s, n),
    decreases n,
{
    if n > 0 {
        lemma_places_are_positions(list, s, n - 1);
    }
}

/// The places picked are exactly those whose status is the one asked for, in the order of
/// the list.
pub proof fn law_places_with_status(list: Seq<Place>, s: Seq<char>)
    requires
        list.len() <= usize::MAX,
    ensures
        forall|j: int| 0 <= j < list.len() ==> (places_upto(list, s, list.len() as int).contains(j as usize) <==> (
            (#[trigger] list[j]).status@ == s)),
        forall|k: int, l: int|
            0 <= k < l < places_upto(list, s, list.len() as int).len() ==> #[trigger]
                places_upto(list, s, list.len() as int)[k]
                < #[trigger] places_upto(list, s, list.len() as int)[l],
{
    let n = list.len() as int;
    lemma_places_are_positions(list, s, n);
    lemma_positions_where(list, |x: Place| x.status@ == s, n);
}

} // verus!
