//! Ascension battle: signs up for the solo ranking (buying a black iron token in the
//! points mall when needed), else for matchmaking; claims the ranking and season rewards.
use vstd::prelude::*;
use crate::text_spec::{lemma_positions_where, positions_where};

use crate::text::{seq_contains, str_contains, str_eq};

verus! {

/// What follows a solo sign-up attempt.
#[derive(Debug, Clone, Copy, PartialEq, Eq, Structural)]
pub enum SoloSignup {
    /// Signed up.
    Signed,
    /// Off season (`"-1"`): give up the solo ranking.
    OffSeason,
    /// Buy a token, then try again.
    BuyToken,
}

pub open spec fn spec_solo_signup(result: Seq<char>) -> SoloSignup {
    if result == "0"@ {
        SoloSignup::Signed
    } else if result == "-1"@ {
        SoloSignup::OffSeason
    } else {
        SoloSignup::BuyToken
    }
}

/// The step after a solo sign-up answered with `result`.
pub fn solo_signup(result: &str) -> (r: SoloSignup)
    ensures
        r == spec_solo_signup(result@),
{
    if str_eq(result, "0") {
        SoloSignup::Signed
    } else if str_eq(result, "-1") {
        SoloSignup::OffSeason
    } else {
        SoloSignup::BuyToken
    }
}

/// Whether the token was bought: the answer says "兑换玄铁令*1成功".
pub fn token_bought(msg: &str) -> (r: bool)
    ensures
        r == seq_contains(msg@, "兑换玄铁令*1成功"@),
{
    str_contains(msg, "兑换玄铁令*1成功")
}

/// A season of the realm history (`"1"`: reward to claim).
#[derive(Debug, Clone)]
pub struct Season {
    pub season: String,
    pub status: String,
}

/// The seasons among the first `n` whose reward can be claimed.
pub open spec fn seasons_upto(list: Seq<Season>, n: int) -> Seq<usize>
    decreases n,
{
    if n <= 0 {
        seq![]
    } else {
        let prev = seasons_upto(list, n - 1);
        if list[n - 1].status@ == "1"@ {
            prev.push((n - 1) as usize)
        } else {
            prev
        }
    }
}

/// The positions of the seasons whose reward can be claimed.
pub fn seasons_to_claim(list: &Vec<Season>) -> (r: Vec<usize>)
    ensures
        r@ == seasons_upto(list@, list@.len() as int),
{
    let mut out: Vec<usize> = Vec::new();
    let mut i: usize = 0;
    while i < list.len()
        invariant
            i <= list@.len(),
            out@ == seasons_upto(list@, i as int),
        decreases list@.len() - i,
    {
        if str_eq(list[i].status.as_str(), "1") {
            out.push(i);
        }
        i = i + 1;
    }
    out
}


/// A solo sign-up: `"0"` signed, `"-1"` off season (give up the solo ranking), any other
/// refusal buys a token and tries again.
pub proof fn law_solo_signups(result: Seq<char>)
    ensures
        (spec_solo_signup(result) == SoloSignup::Signed) <==> result == "0"@,
        (spec_solo_signup(result) == SoloSignup::OffSeason) <==> result == "-1"@,
        (spec_solo_signup(result) == SoloSignup::BuyToken) <==> (result != "0"@ && result != "-1"@),
{
    reveal_strlit("0");
    reveal_strlit("-1");
    assert("0"@.len() != "-1"@.len());
}

proof fn lemma_seasons_are_positions(list: Seq<Season>, n: int)
    ensures
        seasons_upto(list, n) == positions_where(list, |x: Season| x.status@ == "1"@, n),
    decreases n,
{
    if n > 0 {
        lemma_seasons_are_positions(list, n - 1);
    }
}

/// The seasons whose reward is claimed are exactly those of status `"1"`, in the order of the
/// list.
pub proof fn law_seasons_to_claim(list: Seq<Season>)
    requires
        list.len() <= usize::MAX,
    ensures
        forall|j: int| 0 <= j < list.len() ==> (seasons_upto(list, list.len() as int).contains(j as usize) <==> (
            (#[trigger] list[j]).status@ == "1"@)),
        forall|k: int, l: int|
            0 <= k < l < seasons_upto(list, list.len() as int).len() ==> #[trigger]
                seasons_upto(list, list.len() as int)[k]
                < #[trigger] seasons_upto(list, list.len() as int)[l],
{
    let n = list.len() as int;
    lemma_seasons_are_positions(list, n);
    lemma_positions_where(list, |x: Season| x.status@ == "1"@, n);
}

} // verus!
