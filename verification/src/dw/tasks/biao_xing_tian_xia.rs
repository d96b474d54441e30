//! Escorting across the land: claims the reward, escorts and intercepts. When the escort
//! is 蔡八斗 and free refreshes are left, the escort is refreshed; interceptions skip the
//! carts of 蔡八斗.
use vstd::prelude::*;
use crate::text_spec::{lemma_positions_where, positions_where};

use crate::text::str_eq;

verus! {

/// What a visit of the cargo page does.
#[derive(Debug, Clone, Copy, PartialEq, Eq, Structural)]
pub struct CargoVisit {
    /// An escort finished: claim its reward.
    pub claim: bool,
    /// Nothing escorted today: refresh the escort, then set off.
    pub escort: bool,
    /// Interceptions are left.
    pub intercept: bool,
}

pub open spec fn spec_cargo_visit(escort_state: Seq<char>, to_account: Seq<char>, convey_count: Seq<char>, looted_count: Seq<char>) -> CargoVisit {
    CargoVisit {
        claim: escort_state == "1"@ && to_account == "2"@,
        escort: convey_count == "0"@,
        intercept: looted_count != "3"@,
    }
}

/// The visit from the cargo page.
pub fn cargo_visit(escort_state: &str, to_account: &str, convey_count: &str, looted_count: &str) -> (r: CargoVisit)
    ensures
        r == spec_cargo_visit(escort_state@, to_account@, convey_count@, looted_count@),
{
    CargoVisit {
        claim: str_eq(escort_state, "1") && str_eq(to_account, "2"),
        escort: str_eq(convey_count, "0"),
        intercept: !str_eq(looted_count, "3"),
    }
}

/// Whether to refresh the escort: it is the trainee 蔡八斗 (level `"0"`) and a free refresh
/// is left.
pub fn should_reselect(car_lvl: &str, reselect_times: &str) -> (r: bool)
    ensures
        r == (car_lvl@ == "0"@ && reselect_times@ != "0"@),
{
    str_eq(car_lvl, "0") && !str_eq(reselect_times, "0")
}

/// A cart passing by.
#[derive(Debug, Clone)]
pub struct Passerby {
    pub passerby_uin: String,
    pub escort_npc_name: String,
}

/// The carts among the first `n` worth intercepting: not escorted by 蔡八斗 and not the
/// account's own.
pub open spec fn targets_upto(list: Seq<Passerby>, own: Seq<char>, n: int) -> Seq<usize>
    decreases n,
{
    if n <= 0 {
        seq![]
    } else {
        let prev = targets_upto(list, own, n - 1);
        let p = list[n - 1];
        if p.escort_npc_name@ != "蔡八斗"@ && own != p.passerby_uin@ {
            prev.push((n - 1) as usize)
        } else {
            prev
        }
    }
}

/// The positions of the carts to intercept (see `targets_upto`).
pub fn intercept_targets(list: &Vec<Passerby>, own_uin: &str) -> (r: Vec<usize>)
    ensures
        r@ == targets_upto(list@, own_uin@, list@.len() as int),
{
    let mut out: Vec<usize> = Vec::new();
    let mut i: usize = 0;
    while i < list.len()
        invariant
            i <= list@.len(),
            out@ == targets_upto(list@, own_uin@, i as int),
        decreases list@.len() - i,
    {
        let p = &list[i];
        if !str_eq(p.escort_npc_name.as_str(), "蔡八斗") && !str_eq(own_uin, p.passerby_uin.as_str()) {
            out.push(i);
        }
        i = i + 1;
    }
    out
}

/// What follows an interception.
#[derive(Debug, Clone, Copy, PartialEq, Eq, Structural)]
pub enum InterceptOutcome {
    /// Won: log the record; stop when `last` (the third interception), else go on.
    Won { last: bool },
    /// The cart was busy (`"-1"`): log and go on with the next cart.
    Busy,
    /// Refused: log and stop.
    Refused,
}

pub open spec fn spec_intercept_outcome(result: Seq<char>, looted_count: Seq<char>) -> InterceptOutcome {
    if result == "0"@ {
        InterceptOutcome::Won { last: looted_count == "3"@ }
    } else if result == "-1"@ {
        InterceptOutcome::Busy
    } else {
        InterceptOutcome::Refused
    }
}

/// The outcome of an interception from its `result` and the interceptions made.
pub fn intercept_outcome(result: &str, looted_count: &str) -> (r: InterceptOutcome)
    ensures
        r == spec_intercept_outcome(result@, looted_count@),
{
    if str_eq(result, "0") {
        InterceptOutcome::Won { last: str_eq(looted_count, "3") }
    } else if str_eq(result, "-1") {
        InterceptOutcome::Busy
    } else {
        InterceptOutcome::Refused
    }
}


/// The cargo page: an escort that arrived (`escort_state` `"1"`, `to_account` `"2"`) is
/// claimed, an escort is sent when none was sent today (`convey_count` `"0"`), and
/// interceptions go on until three were made.
pub proof fn law_cargo_visits(escort: Seq<char>, to_account: Seq<char>, convey: Seq<char>, looted: Seq<char>)
    ensures
        spec_cargo_visit(escort, to_account, convey, looted).claim <==> (escort == "1"@ && to_account == "2"@),
        spec_cargo_visit(escort, to_account, convey, looted).escort <==> convey == "0"@,
        spec_cargo_visit(escort, to_account, convey, looted).intercept <==> looted != "3"@,
{
}

/// An interception: `"0"` is won (the last one when three were made), `"-1"` a busy cart
/// to skip, anything else a refusal.
pub proof fn law_intercept_outcomes(result: Seq<char>, looted: Seq<char>)
    ensures
        (spec_intercept_outcome(result, looted) is Won) <==> result == "0"@,
        spec_intercept_outcome(result, looted) matches InterceptOutcome::Won { last } ==> (last <==> looted == "3"@),
        (spec_intercept_outcome(result, looted) == InterceptOutcome::Busy) <==> result == "-1"@,
        (spec_intercept_outcome(result, looted) == InterceptOutcome::Refused) <==> (result != "0"@ && result != "-1"@),
{
    reveal_strlit("0");
    reveal_strlit("-1");
    assert("0"@.len() != "-1"@.len());
}

proof fn lemma_targets_are_positions(list: Seq<Passerby>, own: Seq<char>, n: int)
    ensures
        targets_upto(list, own, n) == positions_where(
            list,
            |x: Passerby| x.escort_npc_name@ != "蔡八斗"@ && own != x.passerby_uin@,
            n,
        ),
    decreases n,
{
    if n > 0 {
        lemma_targets_are_positions(list, own, n - 1);
    }
}

/// The carts intercepted are exactly those not escorted by 蔡八斗 and not one's own, in the
/// order of the list.
pub proof fn law_intercept_targets(list: Seq<Passerby>, own: Seq<char>)
    requires
        list.len() <= usize::MAX,
    ensures
        forall|j: int| 0 <= j < list.len() ==> (targets_upto(list, own, list.len() as int).contains(j as usize) <==> (
            (#[trigger] list[j]).escort_npc_name@ != "蔡八斗"@ && own != list[j].passerby_uin@)),
        forall|k: int, l: int|
            0 <= k < l < targets_upto(list, own, list.len() as int).len() ==> #[trigger]
                targets_upto(list, own, list.len() as int)[k]
                < #[trigger] targets_upto(list, own, list.len() as int)[l],
{
    let n = list.len() as int;
    lemma_targets_are_positions(list, own, n);
    lemma_positions_where(list, |x: Passerby| x.escort_npc_name@ != "蔡八斗"@ && own != x.passerby_uin@, n);
}

} // verus!
