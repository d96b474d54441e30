//! Sworn brothers' tournament: signs up, cheers for the king of the unrestricted zone,
//! claims the reward and the coins.
use vstd::prelude::*;
use crate::text_spec::{lemma_positions_where, positions_where};

use crate::text::str_eq;

verus! {

/// What the tournament page leads to.
#[derive(Debug, Clone, Copy, PartialEq, Eq, Structural)]
pub enum BroStep {
    /// A fight is under way, or no known period: nothing.
    Nothing,
    /// Sign-up period, already signed up: log the sign-up info.
    Signed,
    /// Sign-up period: sign up.
    SignUp,
    /// Outside the sign-up period: look at the battle view.
    Battle,
}

pub open spec fn spec_bro_step(is_sea_fighting: Seq<char>, is_top_fighting: Seq<char>, sign_time: Seq<char>, has_sign_flag: Seq<char>) -> BroStep {
    if is_sea_fighting == "1"@ || is_top_fighting == "1"@ {
        BroStep::Nothing
    } else if sign_time == "1"@ {
        if has_sign_flag == "1"@ { BroStep::Signed } else { BroStep::SignUp }
    } else if sign_time == "0"@ {
        BroStep::Battle
    } else {
        BroStep::Nothing
    }
}

/// The step from the tournament page.
pub fn bro_step(is_sea_fighting: &str, is_top_fighting: &str, sign_time: &str, has_sign_flag: &str) -> (r: BroStep)
    ensures
        r == spec_bro_step(is_sea_fighting@, is_top_fighting@, sign_time@, has_sign_flag@),
{
    if str_eq(is_sea_fighting, "1") || str_eq(is_top_fighting, "1") {
        BroStep::Nothing
    } else if str_eq(sign_time, "1") {
        if str_eq(has_sign_flag, "1") {
            BroStep::Signed
        } else {
            BroStep::SignUp
        }
    } else if str_eq(sign_time, "0") {
        BroStep::Battle
    } else {
        BroStep::Nothing
    }
}

/// What the battle view leads to.
#[derive(Debug, Clone, Copy, PartialEq, Eq, Structural)]
pub enum BattleStep {
    /// Cheering time, no cheer yet: cheer.
    Cheer,
    /// Outside cheering time: claim the reward and the coins.
    Rewards,
    /// Nothing.
    Nothing,
}

pub open spec fn spec_battle_step(cheer_time: Seq<char>, has_cheer: Seq<char>) -> BattleStep {
    if cheer_time == "1"@ && has_cheer == "0"@ {
        BattleStep::Cheer
    } else if cheer_time == "0"@ {
        BattleStep::Rewards
    } else {
        BattleStep::Nothing
    }
}

/// The step from the battle view.
pub fn battle_step(cheer_time: &str, has_cheer: &str) -> (r: BattleStep)
    ensures
        r == spec_battle_step(cheer_time@, has_cheer@),
{
    if str_eq(cheer_time, "1") && str_eq(has_cheer, "0") {
        BattleStep::Cheer
    } else if str_eq(cheer_time, "0") {
        BattleStep::Rewards
    } else {
        BattleStep::Nothing
    }
}

/// A team of a ground, with the coins it still holds.
#[derive(Debug, Clone)]
pub struct Team {
    pub uin: String,
    pub remain_money: String,
}

/// The teams among the first `n` that still hold coins.
pub open spec fn teams_upto(list: Seq<Team>, n: int) -> Seq<usize>
    decreases n,
{
    if n <= 0 {
        seq![]
    } else {
        let prev = teams_upto(list, n - 1);
        if list[n - 1].remain_money@ != "0"@ {
            prev.push((n - 1) as usize)
        } else {
            prev
        }
    }
}

/// The positions of the teams whose coins can be claimed.
pub fn teams_with_coins(list: &Vec<Team>) -> (r: Vec<usize>)
    ensures
        r@ == teams_upto(list@, list@.len() as int),
{
    let mut out: Vec<usize> = Vec::new();
    let mut i: usize = 0;
    while i < list.len()
        invariant
            i <= list@.len(),
            out@ == teams_upto(list@, i as int),
        decreases list@.len() - i,
    {
        if !str_eq(list[i].remain_money.as_str(), "0") {
            out.push(i);
        }
        i = i + 1;
    }
    out
}


/// The tournament page: nothing while a round is fought; in the sign-up period sign up,
/// or report the sign-up when already signed; outside it look at the battle view.
pub proof fn law_bro_steps(sea: Seq<char>, top: Seq<char>, sign_time: Seq<char>, flag: Seq<char>)
    ensures
        (sea == "1"@ || top == "1"@) ==> spec_bro_step(sea, top, sign_time, flag) == BroStep::Nothing,
        (spec_bro_step(sea, top, sign_time, flag) == BroStep::SignUp) <==> (sea != "1"@ && top != "1"@
            && sign_time == "1"@ && flag != "1"@),
        (spec_bro_step(sea, top, sign_time, flag) == BroStep::Signed) <==> (sea != "1"@ && top != "1"@
            && sign_time == "1"@ && flag == "1"@),
        (spec_bro_step(sea, top, sign_time, flag) == BroStep::Battle) <==> (sea != "1"@ && top != "1"@
            && sign_time == "0"@),
{
    reveal_strlit("0");
    reveal_strlit("1");
    assert("0"@[0] != "1"@[0]);
}

/// The battle view: cheer once in cheering time; outside it claim the rewards.
pub proof fn law_battle_steps(cheer_time: Seq<char>, has_cheer: Seq<char>)
    ensures
        (spec_battle_step(cheer_time, has_cheer) == BattleStep::Cheer) <==> (cheer_time == "1"@ && has_cheer == "0"@),
        (spec_battle_step(cheer_time, has_cheer) == BattleStep::Rewards) <==> cheer_time == "0"@,
{
    reveal_strlit("0");
    reveal_strlit("1");
    assert("0"@[0] != "1"@[0]);
}

proof fn lemma_teams_are_positions(list: Seq<Team>, n: int)
    ensures
        teams_upto(list, n) == positions_where(list, |x: Team| x.remain_money@ != "0"@, n),
    decreases n,
{
    if n > 0 {
        lemma_teams_are_positions(list, n - 1);
    }
}

/// The teams whose coins are claimed are exactly those with coins left (other than `"0"`),
/// in the order of the list.
pub proof fn law_teams_with_coins(list: Seq<Team>)
    requires
        list.len() <= usize::MAX,
    ensures
        forall|j: int| 0 <= j < list.len() ==> (teams_upto(list, list.len() as int).contains(j as usize) <==> (
            (#[trigger] list[j]).remain_money@ != "0"@)),
        forall|k: int, l: int|
            0 <= k < l < teams_upto(list, list.len() as int).len() ==> #[trigger]
                teams_upto(list, list.len() as int)[k]
                < #[trigger] teams_upto(list, list.len() as int)[l],
{
    let n = list.len() as int;
    lemma_teams_are_positions(list, n);
    lemma_positions_where(list, |x: Team| x.remain_money@ != "0"@, n);
}

} // verus!
