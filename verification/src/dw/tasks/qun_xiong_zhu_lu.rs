//! The contest of heroes: signs up, claims the reward.
use vstd::prelude::*;

use crate::text::str_eq;

verus! {

/// What the contest page leads to.
#[derive(Debug, Clone, Copy, PartialEq, Eq, Structural)]
pub enum ThronesStep {
    /// Signed up in a zone: claim the reward.
    Reward,
    /// Sign-up time: sign up.
    SignUp,
    /// Nothing.
    Idle,
}

/// The step from the contest page.
pub fn thrones_step(signed_up_zone: &str, in_sign_up_time: &str) -> (r: ThronesStep)
    ensures
        r == (if signed_up_zone@ != "0"@ {
            ThronesStep::Reward
        } else if in_sign_up_time@ == "1"@ {
            ThronesStep::SignUp
        } else {
            ThronesStep::Idle
        }),
{
    if !str_eq(signed_up_zone, "0") {
        ThronesStep::Reward
    } else if str_eq(in_sign_up_time, "1") {
        ThronesStep::SignUp
    } else {
        ThronesStep::Idle
    }
}

} // verus!
