//! The first look at an event page: open, closed for now, or refused.
use vstd::prelude::*;
use crate::text_spec::{lemma_positions_where, positions_where};

use crate::text::str_eq;

verus! {

/// What the `result` of an event page says.
#[derive(Debug, Clone, Copy, PartialEq, Eq, Structural)]
pub enum PageCheck {
    /// `"0"`: go on.
    Open,
    /// `"-1"`: the event is not running now; stop without a word.
    Closed,
    /// Anything else: log the message and stop.
    Refused,
}

pub open spec fn spec_page_check(result: Seq<char>) -> PageCheck {
    if result == "-1"@ {
        PageCheck::Closed
    } else if result != "0"@ {
        PageCheck::Refused
    } else {
        PageCheck::Open
    }
}

/// The check of an event page's `result`.
pub fn page_check(result: &str) -> (r: PageCheck)
    ensures
        r == spec_page_check(result@),
{
    if str_eq(result, "-1") {
        PageCheck::Closed
    } else if !str_eq(result, "0") {
        PageCheck::Refused
    } else {
        PageCheck::Open
    }
}

/// An entry of a list with an id and a status.
#[derive(Debug, Clone)]
pub struct Entry {
    pub id: String,
    pub status: String,
}

/// The entries among the first `n` whose status is `s`.
pub open spec fn with_status_upto(list: Seq<Entry>, s: Seq<char>, n: int) -> Seq<usize>
    decreases n,
{
    if n <= 0 {
        seq![]
    } else {
        let prev = with_status_upto(list, s, n - 1);
        if list[n - 1].status@ == s {
            prev.push((n - 1) as usize)
        } else {
            prev
        }
    }
}

/// The positions of the entries whose status is `status`, in order.
pub fn with_status(list: &Vec<Entry>, status: &str) -> (r: Vec<usize>)
    ensures
        r@ == with_status_upto(list@, status@, list@.len() as int),
{
    let mut out: Vec<usize> = Vec::new();
    let mut i: usize = 0;
    while i < list.len()
        invariant
            i <= list@.len(),
            out@ == with_status_upto(list@, status@, i as int),
        decreases list@.len() - i,
    {
        if str_eq(list[i].status.as_str(), status) {
            out.push(i);
        }
        i = i + 1;
    }
    out
}

proof fn lemma_with_status_are_positions(list: Seq<Entry>, s: Seq<char>, n: int)
    ensures
        with_status_upto(list, s, n) == positions_where(list, |x: Entry| x.status@ == s, n),
    decreases n,
{
    if n > 0 {
        lemma_with_status_are_positions(list, s, n - 1);
    }
}

/// The entries picked are exactly those whose status is the one asked for, in the order of
/// the list.
pub proof fn law_with_status(list: Seq<Entry>, s: Seq<char>)
    requires
        list.len() <= usize::MAX,
    ensures
        forall|j: int| 0 <= j < list.len() ==> (with_status_upto(list, s, list.len() as int).contains(j as usize) <==> (
            (#[trigger] list[j]).status@ == s)),
        forall|k: int, l: int|
            0 <= k < l < with_status_upto(list, s, list.len() as int).len() ==> #[trigger]
                with_status_upto(list, s, list.len() as int)[k]
                < #[trigger] with_status_upto(list, s, list.len() as int)[l],
{
    let n = list.len() as int;
    lemma_with_status_are_positions(list, s, n);
    lemma_positions_where(list, |x: Entry| x.status@ == s, n);
}

/// A page goes on exactly when its result is `"0"`, stops quietly exactly when it is
/// `"-1"`, and is refused with its message on every other result.
pub proof fn law_page_check(result: Seq<char>)
    ensures
        (spec_page_check(result) == PageCheck::Open) <==> result == "0"@,
        (spec_page_check(result) == PageCheck::Closed) <==> result == "-1"@,
        (spec_page_check(result) == PageCheck::Refused) <==> (result != "0"@ && result != "-1"@),
{
    reveal_strlit("0");
    reveal_strlit("-1");
    assert("0"@.len() != "-1"@.len());
}

} // verus!
