//! The faction's golden league: joins the defence, fights, and claims the round and the
//! ranking rewards. Targets are attacked from the weakest up.
use vstd::prelude::*;

use crate::text::{is_prefix, str_eq, str_starts_with};

verus! {

/// What to do on a visit of the league page.
#[derive(Debug, Clone, Copy, PartialEq, Eq, Structural)]
pub enum LeagueStep {
    /// Claim the round reward, then look again.
    RoundReward,
    /// Claim the ranking reward, then look again.
    RankReward,
    /// Join the defence and stop.
    Defend,
    /// On a match day, signed up: attack and stop when the account is still standing,
    /// else look again.
    Attack,
    /// Nothing; look again.
    Nothing,
}

pub open spec fn spec_league_step(status: Seq<char>, sign_up: Seq<char>, has_games: bool) -> LeagueStep {
    if status == "1"@ {
        LeagueStep::RoundReward
    } else if status == "2"@ {
        LeagueStep::RankReward
    } else if status == "3"@ && sign_up == "0"@ {
        LeagueStep::Defend
    } else if status == "4"@ && has_games && sign_up == "1"@ {
        LeagueStep::Attack
    } else {
        LeagueStep::Nothing
    }
}

/// The step for the league's `status`: `"1"` round reward, `"2"` ranking reward, `"3"`
/// without a sign-up join the defence, `"4"` with today's games and a sign-up attack.
pub fn league_step(status: &str, sign_up: &str, has_games: bool) -> (r: LeagueStep)
    ensures
        r == spec_league_step(status@, sign_up@, has_games),
{
    if str_eq(status, "1") {
        LeagueStep::RoundReward
    } else if str_eq(status, "2") {
        LeagueStep::RankReward
    } else if str_eq(status, "3") && str_eq(sign_up, "0") {
        LeagueStep::Defend
    } else if str_eq(status, "4") && has_games && str_eq(sign_up, "1") {
        LeagueStep::Attack
    } else {
        LeagueStep::Nothing
    }
}

/// An entry of the league's fight record.
#[derive(Debug, Clone)]
pub struct FightEntry {
    pub uin: String,
    /// `"0"` when that fighter has fallen.
    pub is_win: String,
}

/// The account `qq` is still standing: no entry of the fight record for it reads `"0"`.
pub open spec fn spec_still_standing(list: Seq<FightEntry>, qq: Seq<char>) -> bool {
    forall|j: int| 0 <= j < list.len() ==> !((#[trigger] list[j]).uin@ == qq && list[j].is_win@ == "0"@)
}

/// Whether the account `qq` is still standing in the fight record.
pub fn still_standing(list: &Vec<FightEntry>, qq: &str) -> (r: bool)
    ensures
        r == spec_still_standing(list@, qq@),
{
    let mut i: usize = 0;
    while i < list.len()
        invariant
            i <= list@.len(),
            forall|j: int| 0 <= j < i ==> !((#[trigger] list@[j]).uin@ == qq@ && list@[j].is_win@ == "0"@),
        decreases list@.len() - i,
    {
        let e = &list[i];
        if str_eq(e.uin.as_str(), qq) && str_eq(e.is_win.as_str(), "0") {
            return false;
        }
        i = i + 1;
    }
    true
}

pub open spec fn spec_attack_goes_on(result: Seq<char>, msg: Seq<char>) -> bool {
    is_prefix("更换一名"@, msg) || (result == "0"@ && is_prefix("勇士，恭喜您战胜"@, msg))
}

/// Whether to attack the next target after an attack answered with `result` and `msg`:
/// yes when told to pick another one, or after a victory; no otherwise.
pub fn attack_goes_on(result: &str, msg: &str) -> (r: bool)
    ensures
        r == spec_attack_goes_on(result@, msg@),
{
    if str_starts_with(msg, "更换一名") {
        return true;
    }
    if !str_eq(result, "0") {
        return false;
    }
    str_starts_with(msg, "勇士，恭喜您战胜")
}


/// The league: status `"1"` claims the round reward, `"2"` the ranking reward, `"3"` joins
/// the defence when not signed up, `"4"` attacks on a match day when signed up.
pub proof fn law_league_steps(status: Seq<char>, sign_up: Seq<char>, has_games: bool)
    ensures
        (spec_league_step(status, sign_up, has_games) == LeagueStep::RoundReward) <==> status == "1"@,
        (spec_league_step(status, sign_up, has_games) == LeagueStep::RankReward) <==> status == "2"@,
        (spec_league_step(status, sign_up, has_games) == LeagueStep::Defend) <==> (status == "3"@ && sign_up == "0"@),
        (spec_league_step(status, sign_up, has_games) == LeagueStep::Attack) <==> (status == "4"@ && has_games
            && sign_up == "1"@),
{
    reveal_strlit("1");
    reveal_strlit("2");
    reveal_strlit("3");
    reveal_strlit("4");
    assert("1"@[0] != "2"@[0] && "1"@[0] != "3"@[0] && "1"@[0] != "4"@[0] && "2"@[0] != "3"@[0] && "2"@[0]
        != "4"@[0] && "3"@[0] != "4"@[0]);
}

/// Attacking goes on after a victory or when asked to pick another target, and stops on
/// any other answer.
pub proof fn law_attack_goes_on(result: Seq<char>, msg: Seq<char>)
    ensures
        is_prefix("更换一名"@, msg) ==> spec_attack_goes_on(result, msg),
        result == "0"@ && is_prefix("勇士，恭喜您战胜"@, msg) ==> spec_attack_goes_on(result, msg),
        !is_prefix("更换一名"@, msg) && result != "0"@ ==> !spec_attack_goes_on(result, msg),
        !is_prefix("更换一名"@, msg) && !is_prefix("勇士，恭喜您战胜"@, msg) ==> !spec_attack_goes_on(result, msg),
{
}

/// The account stands exactly when no entry of the record for it reads a loss (`"0"`).
pub proof fn law_standing(list: Seq<FightEntry>, qq: Seq<char>, j: int)
    requires
        0 <= j < list.len(),
        list[j].uin@ == qq,
        list[j].is_win@ == "0"@,
    ensures
        !spec_still_standing(list, qq),
{
}

} // verus!
