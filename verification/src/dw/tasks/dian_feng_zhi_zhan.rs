//! The summit battle: signs up for the northern camp, claims the reward, campaigns.
use vstd::prelude::*;

use crate::text::str_eq;

verus! {

/// What the battle page leads to.
#[derive(Debug, Clone, Copy, PartialEq, Eq, Structural)]
pub enum GvgStep {
    /// Sign-up period, not signed up: sign up for the north, then claim the reward.
    SignUp,
    /// Battle period, in a camp, still able to fight: campaign.
    Campaign,
    /// Nothing.
    Idle,
}

pub open spec fn spec_gvg_step(status: Seq<char>, group: Seq<char>, win_group: Seq<char>, chall_status: Seq<char>, relive: Seq<char>) -> GvgStep {
    if status == "1"@ {
        if group == "0"@ { GvgStep::SignUp } else { GvgStep::Idle }
    } else if win_group != "0"@ || status != "2"@ || group == "0"@ {
        GvgStep::Idle
    } else if chall_status == "1"@ && relive == "2"@ {
        GvgStep::Idle
    } else {
        GvgStep::Campaign
    }
}

/// The step from the page: in the sign-up period (`status` `"1"`) sign up when in no camp;
/// in the battle period (`"2"`), while no camp has won, campaign unless the account is in
/// no camp or is down with no revival left.
pub fn gvg_step(status: &str, group: &str, win_group: &str, chall_status: &str, relive: &str) -> (r: GvgStep)
    ensures
        r == spec_gvg_step(status@, group@, win_group@, chall_status@, relive@),
{
    if str_eq(status, "1") {
        if str_eq(group, "0") {
            return GvgStep::SignUp;
        }
        return GvgStep::Idle;
    }
    if !str_eq(win_group, "0") || !str_eq(status, "2") || str_eq(group, "0") {
        return GvgStep::Idle;
    }
    if str_eq(chall_status, "1") && str_eq(relive, "2") {
        return GvgStep::Idle;
    }
    GvgStep::Campaign
}


/// The summit battle: in the sign-up period (`"1"`) sign up exactly when in no camp; in
/// the battle period (`"2"`), while no camp has won, campaign when in a camp unless down
/// (`chall_status` `"1"`) with no revival left (`relive` `"2"`); nothing in any other case.
pub proof fn law_gvg_steps(status: Seq<char>, group: Seq<char>, win: Seq<char>, chall: Seq<char>, relive: Seq<char>)
    ensures
        (spec_gvg_step(status, group, win, chall, relive) == GvgStep::SignUp) <==> (status == "1"@ && group == "0"@),
        (spec_gvg_step(status, group, win, chall, relive) == GvgStep::Campaign) <==> (status == "2"@ && win == "0"@
            && group != "0"@ && !(chall == "1"@ && relive == "2"@)),
{
    reveal_strlit("1");
    reveal_strlit("2");
    assert("1"@[0] != "2"@[0]);
}

} // verus!
