//! The dragon and phoenix realm: signing up in the dragon abyss zone, challenging,
//! claiming rewards and exchanging.
//!
//! A challenge is made when challenges are left and it is the battle period: once, against
//! the last of the list. The daily reward follows each challenge; the ranking reward and
//! the exchange come in the off season.
use vstd::prelude::*;

use crate::common::config::LongHuangYunJi;
use crate::text::{parse_u32, spec_parse_u32, str_eq};

verus! {

/// The reward tiers: how many bouts each needs.
pub open spec fn reward_thresholds() -> Seq<u32> {
    seq![1u32, 8u32, 18u32, 26u32, 36u32]
}

/// Whether bit `i` of `flag` is clear (that tier was not claimed yet).
pub open spec fn tier_unclaimed(flag: u32, i: u32) -> bool {
    (flag >> i) & 1u32 == 0u32
}

/// The claimable tiers (1-based) among the first `n`.
pub open spec fn rewards_upto(times: u32, flag: u32, n: int) -> Seq<u32>
    decreases n,
{
    if n <= 0 {
        seq![]
    } else {
        let prev = rewards_upto(times, flag, n - 1);
        if times >= reward_thresholds()[n - 1] && tier_unclaimed(flag, (n - 1) as u32) {
            prev.push(n as u32)
        } else {
            prev
        }
    }
}

/// The reward tiers (1 to 5) that can be claimed: the number of bouts reaches the tier's
/// threshold (1, 8, 18, 26, 36) and the tier's bit of `flag` is 0.
pub fn find_claimable_rewards(times: u32, flag: u32) -> (r: Vec<u32>)
    ensures
        r@ == rewards_upto(times, flag, 5),
{
    let table: [u32; 5] = [1, 8, 18, 26, 36];
    assert(table@ =~= reward_thresholds());
    let mut out: Vec<u32> = Vec::new();
    let mut i: u32 = 0;
    while i < 5
        invariant
            i <= 5,
            table@ == reward_thresholds(),
            out@ == rewards_upto(times, flag, i as int),
        decreases 5 - i,
    {
        if times >= table[i as usize] && (flag >> i) & 1 == 0 {
            out.push(i + 1);
        }
        i = i + 1;
    }
    out
}

/// How many to exchange: what is still wanted (the smaller of the configured and the
/// server's limit, less what was exchanged, which is the limit less what remains), but
/// no more than the score pays for.
pub open spec fn spec_calc_max_exchange(want: u32, limit: u32, remain: u32, score: u32, cost: u32) -> u32 {
    let exchanged: int = if limit >= remain { limit - remain } else { 0 };
    let cap: int = if want <= limit { want as int } else { limit as int };
    let need: int = if cap >= exchanged { cap - exchanged } else { 0 };
    let affordable: int = (score / cost) as int;
    (if need <= affordable { need } else { affordable }) as u32
}

/// How many of a good to exchange (see `spec_calc_max_exchange`); the price is not 0.
pub fn calc_max_exchange(want: u32, limit: u32, remain: u32, score: u32, cost: u32) -> (r: u32)
    requires
        cost > 0,
    ensures
        r == spec_calc_max_exchange(want, limit, remain, score, cost),
{
    let exchanged = if limit >= remain {
        limit - remain
    } else {
        0
    };
    let cap = if want <= limit {
        want
    } else {
        limit
    };
    let need = if cap >= exchanged {
        cap - exchanged
    } else {
        0
    };
    let affordable = score / cost;
    if need <= affordable {
        need
    } else {
        affordable
    }
}

/// An exchange never asks for more than the score pays for, nor for more than the
/// configured amount once what was exchanged is counted.
pub proof fn law_exchange_affordable(want: u32, limit: u32, remain: u32, score: u32, cost: u32)
    requires
        cost > 0,
    ensures
        spec_calc_max_exchange(want, limit, remain, score, cost) * cost <= score,
        cost * spec_calc_max_exchange(want, limit, remain, score, cost) <= score,
        spec_calc_max_exchange(want, limit, remain, score, cost) <= want,
        spec_calc_max_exchange(want, limit, remain, score, cost) <= limit,
{
    let r = spec_calc_max_exchange(want, limit, remain, score, cost);
    assert(r <= score / cost);
    assert((score / cost) * cost <= score) by (nonlinear_arith)
        requires
            cost > 0,
    ;
    assert(r * cost <= (score / cost) * cost) by (nonlinear_arith)
        requires
            r <= score / cost,
            cost > 0,
    ;
}

/// What the task does on a visit of the martial page.
#[derive(Debug, Clone, Copy, PartialEq, Eq, Structural)]
pub enum MartialStep {
    /// Nothing today.
    Idle,
    /// Sign up in the dragon abyss zone.
    SignUp,
    /// Challenge the last of the battle list, then claim the daily reward.
    Challenge,
    /// Off season: claim the ranking reward, the tier rewards, then exchange.
    SeasonEnd,
}

pub open spec fn spec_martial_step(signed: bool, times: Seq<char>, battles: nat, day: u32, hour: u32) -> MartialStep {
    if !signed {
        if 1 <= day <= 3 { MartialStep::SignUp } else { MartialStep::Idle }
    } else if 4 <= day <= 25 {
        if times != "0"@ && 8 <= hour < 22 && battles > 0 {
            MartialStep::Challenge
        } else {
            MartialStep::Idle
        }
    } else if day < 27 {
        MartialStep::Idle
    } else {
        MartialStep::SeasonEnd
    }
}

/// The step for the day of the month `day` and the hour `hour`: without a sign-up
/// (`signin` `"0"`), sign up on days 1 to 3; on days 4 to 25, challenge when challenges
/// are left (`times` is not `"0"`), it is between 8 and 22 o'clock and the battle list is
/// not empty; from day 27, the season's end.
pub fn martial_step(signin: &str, times: &str, battles: usize, day: u32, hour: u32) -> (r: MartialStep)
    ensures
        r == spec_martial_step(signin@ != "0"@, times@, battles as nat, day, hour),
{
    if str_eq(signin, "0") {
        if 1 <= day && day <= 3 {
            MartialStep::SignUp
        } else {
            MartialStep::Idle
        }
    } else if 4 <= day && day <= 25 {
        if !str_eq(times, "0") && 8 <= hour && hour < 22 && battles > 0 {
            MartialStep::Challenge
        } else {
            MartialStep::Idle
        }
    } else if day < 27 {
        MartialStep::Idle
    } else {
        MartialStep::SeasonEnd
    }
}

/// Which field of the reward page is no number.
#[derive(Debug, Clone, Copy, PartialEq, Eq, Structural)]
pub enum RewardField {
    Times,
    Flag,
}

/// The tiers to claim from the `times` and `flag` fields of the reward page, or the first
/// of them that is no number.
pub fn rewards_to_claim(times: &str, flag: &str) -> (r: Result<Vec<u32>, RewardField>)
    ensures
        spec_parse_u32(times@) is None ==> r == Err::<Vec<u32>, RewardField>(RewardField::Times),
        spec_parse_u32(times@) is Some && spec_parse_u32(flag@) is None ==> r == Err::<
            Vec<u32>,
            RewardField,
        >(RewardField::Flag),
        spec_parse_u32(times@) is Some && spec_parse_u32(flag@) is Some ==> (r matches Ok(v)
            && v@ == rewards_upto(spec_parse_u32(times@)->0, spec_parse_u32(flag@)->0, 5)),
{
    let t = match parse_u32(times) {
        Some(v) => v,
        None => return Err(RewardField::Times),
    };
    let f = match parse_u32(flag) {
        Some(v) => v,
        None => return Err(RewardField::Flag),
    };
    Ok(find_claimable_rewards(t, f))
}

/// A good of the realm's shop as the server lists it.
#[derive(Debug, Clone)]
pub struct ShopItem {
    pub name: String,
    pub id: String,
    /// Price in dragon-phoenix points.
    pub cost: String,
    /// How many the server has in all.
    pub limit: String,
    /// How many are left.
    pub remain: String,
}

/// A number field of a good.
#[derive(Debug, Clone, Copy, PartialEq, Eq, Structural)]
pub enum ItemField {
    Remain,
    Cost,
    Limit,
}

/// One step of a visit to the realm's shop.
#[derive(Debug, Clone, Copy, PartialEq, Eq, Structural)]
pub enum ShopStep {
    /// Buy the good at `index`: `tens` batches of 10, then `ones` batches of 1.
    Exchange { index: usize, tens: u32, ones: u32 },
    /// A field of the good at `index` is no number; the good is skipped.
    BadField { index: usize, field: ItemField },
    /// The good at `index` has price 0; it is skipped.
    ZeroCost { index: usize },
}

/// What a visit to the realm's shop does.
#[derive(Debug, Clone)]
pub enum ShopPlan {
    /// No good is configured: nothing to do.
    NothingWanted,
    /// The score is no number.
    BadScore,
    /// The score is under 100.
    ScoreTooLow,
    /// The steps, in the order of the goods.
    Steps(Vec<ShopStep>),
}

pub open spec fn spec_want(ex: LongHuangYunJi, name: Seq<char>) -> Option<u32> {
    if name == "凰髓"@ {
        Some(ex.huang_sui)
    } else if name == "凰火"@ {
        Some(ex.huang_huo)
    } else if name == "龙玉"@ {
        Some(ex.long_yu)
    } else if name == "论武券"@ {
        Some(ex.lun_wu_quan)
    } else {
        None
    }
}

/// Each good of the shop is wanted as often as the setting named after it says: 凰髓 by
/// `huang_sui`, 凰火 by `huang_huo`, 龙玉 by `long_yu`, 论武券 by `lun_wu_quan`, whatever the
/// settings are; other goods are not configured.
pub proof fn law_want_follows_its_setting(ex: LongHuangYunJi, name: Seq<char>)
    ensures
        spec_want(ex, "凰髓"@) == Some(ex.huang_sui),
        spec_want(ex, "凰火"@) == Some(ex.huang_huo),
        spec_want(ex, "龙玉"@) == Some(ex.long_yu),
        spec_want(ex, "论武券"@) == Some(ex.lun_wu_quan),
        name != "凰髓"@ && name != "凰火"@ && name != "龙玉"@ && name != "论武券"@ ==> spec_want(ex, name) is None,
{
    reveal_strlit("凰髓");
    reveal_strlit("凰火");
    reveal_strlit("龙玉");
    reveal_strlit("论武券");
    assert("凰髓"@[1] != "凰火"@[1]);
    assert("凰髓"@[0] != "龙玉"@[0] && "凰火"@[0] != "龙玉"@[0]);
    assert("论武券"@.len() != "凰髓"@.len() && "论武券"@.len() != "凰火"@.len() && "论武券"@.len() != "龙玉"@.len());
}

/// How many of the good named `name` are wanted; `None` for goods not configured.
pub fn want_of(ex: &LongHuangYunJi, name: &str) -> (r: Option<u32>)
    ensures
        r == spec_want(*ex, name@),
{
    if str_eq(name, "凰髓") {
        Some(ex.huang_sui)
    } else if str_eq(name, "凰火") {
        Some(ex.huang_huo)
    } else if str_eq(name, "龙玉") {
        Some(ex.long_yu)
    } else if str_eq(name, "论武券") {
        Some(ex.lun_wu_quan)
    } else {
        None
    }
}

/// The steps for the first `n` goods, starting from `score`, with the score left.
pub open spec fn shop_steps(ex: LongHuangYunJi, items: Seq<ShopItem>, n: int, score: u32) -> (Seq<ShopStep>, u32)
    decreases n,
{
    if n <= 0 {
        (seq![], score)
    } else {
        let (prev, s) = shop_steps(ex, items, n - 1, score);
        let g = items[n - 1];
        let idx = (n - 1) as usize;
        match spec_want(ex, g.name@) {
            None => (prev, s),
            Some(w) => if w == 0 || g.remain@ == "0"@ {
                (prev, s)
            } else {
                match spec_parse_u32(g.remain@) {
                    None => (prev.push(ShopStep::BadField { index: idx, field: ItemField::Remain }), s),
                    Some(remain) => match spec_parse_u32(g.cost@) {
                        None => (prev.push(ShopStep::BadField { index: idx, field: ItemField::Cost }), s),
                        Some(cost) => if cost == 0 {
                            (prev.push(ShopStep::ZeroCost { index: idx }), s)
                        } else {
                            match spec_parse_u32(g.limit@) {
                                None => (prev.push(ShopStep::BadField { index: idx, field: ItemField::Limit }), s),
                                Some(limit) => {
                                    let m = spec_calc_max_exchange(w, limit, remain, s, cost);
                                    if m == 0 {
                                        (prev, s)
                                    } else {
                                        (
                                            prev.push(ShopStep::Exchange { index: idx, tens: m / 10, ones: m % 10 }),
                                            (s - cost * m) as u32,
                                        )
                                    }
                                },
                            }
                        },
                    },
                }
            },
        }
    }
}

/// What the exchanges among `steps` cost: for each, the price of its good times the
/// number bought (`tens` batches of ten and `ones` of one).
pub open spec fn steps_cost(items: Seq<ShopItem>, steps: Seq<ShopStep>) -> int
    decreases steps.len(),
{
    if steps.len() == 0 {
        0
    } else {
        steps_cost(items, steps.drop_last()) + match steps.last() {
            ShopStep::Exchange { index, tens, ones } => match spec_parse_u32(items[index as int].cost@) {
                Some(c) => c * (tens * 10 + ones),
                None => 0,
            },
            _ => 0,
        }
    }
}

/// A visit spends exactly what its exchanges cost and never more than the score: the
/// score left is the score held less the price of every good bought. Each exchange is for
/// a good listed in the shop and configured, and buys at least one and no more than the
/// configured amount.
pub proof fn law_shop_spends_the_score(ex: LongHuangYunJi, items: Seq<ShopItem>, n: int, score: u32)
    requires
        0 <= n <= items.len(),
        items.len() <= usize::MAX,
    ensures
        steps_cost(items, shop_steps(ex, items, n, score).0) + shop_steps(ex, items, n, score).1 == score,
        forall|k: int|
            0 <= k < shop_steps(ex, items, n, score).0.len() ==> (#[trigger] shop_steps(ex, items, n, score).0[k] matches ShopStep::Exchange {
                index,
                tens,
                ones,
            } ==> (index < n && ones < 10 && (spec_want(ex, items[index as int].name@) matches Some(w) && 0 < tens * 10
                + ones <= w))),
    decreases n,
{
    if n > 0 {
        law_shop_spends_the_score(ex, items, n - 1, score);
        let (prev, s) = shop_steps(ex, items, n - 1, score);
        let (cur, t) = shop_steps(ex, items, n, score);
        let g = items[n - 1];
        if cur != prev {
            assert(cur.drop_last() =~= prev);
            assert forall|k: int| 0 <= k < prev.len() implies #[trigger] cur[k] == prev[k] by {}
            if cur.last() is Exchange {
                let w = spec_want(ex, g.name@)->0;
                let remain = spec_parse_u32(g.remain@)->0;
                let cost = spec_parse_u32(g.cost@)->0;
                let limit = spec_parse_u32(g.limit@)->0;
                let m = spec_calc_max_exchange(w, limit, remain, s, cost);
                law_exchange_affordable(w, limit, remain, s, cost);
                assert((m / 10) * 10 + m % 10 == m) by (nonlinear_arith);
                assert(cur.last() == ShopStep::Exchange { index: (n - 1) as usize, tens: m / 10, ones: m % 10 });
                assert(((n - 1) as usize) as int == n - 1);
                assert(cost * ((m / 10) * 10 + m % 10) == cost * m);
                assert(steps_cost(items, cur) == steps_cost(items, prev) + cost * m);
            }
        }
    }
}

/// A visit to the realm's shop: nothing when no good is configured; otherwise, with at
/// least 100 points, each configured good that is not sold out is bought as often as
/// `calc_max_exchange` allows, in batches of ten and then of one, and its cost is taken
/// from the score before the next good.
pub fn shop_plan(ex: &LongHuangYunJi, score: &str, items: &Vec<ShopItem>) -> (r: ShopPlan)
    ensures
        ex.all_zero() ==> r is NothingWanted,
        !ex.all_zero() && spec_parse_u32(score@) is None ==> r is BadScore,
        !ex.all_zero() && spec_parse_u32(score@) is Some && spec_parse_u32(score@)->0 < 100
            ==> r is ScoreTooLow,
        !ex.all_zero() && spec_parse_u32(score@) is Some && spec_parse_u32(score@)->0 >= 100
            ==> (r matches ShopPlan::Steps(v) && v@ == shop_steps(
            *ex,
            items@,
            items@.len() as int,
            spec_parse_u32(score@)->0,
        ).0),
{
    if ex.huang_sui == 0 && ex.huang_huo == 0 && ex.long_yu == 0 && ex.lun_wu_quan == 0 {
        return ShopPlan::NothingWanted;
    }
    let score0 = match parse_u32(score) {
        Some(v) => v,
        None => return ShopPlan::BadScore,
    };
    if score0 < 100 {
        return ShopPlan::ScoreTooLow;
    }
    let mut steps: Vec<ShopStep> = Vec::new();
    let mut left: u32 = score0;
    let mut i: usize = 0;
    while i < items.len()
        invariant
            i <= items@.len(),
            shop_steps(*ex, items@, i as int, score0) == (steps@, left),
        decreases items@.len() - i,
    {
        let g = &items[i];
        match want_of(ex, g.name.as_str()) {
            None => {},
            Some(w) => {
                if w != 0 && !str_eq(g.remain.as_str(), "0") {
                    match parse_u32(g.remain.as_str()) {
                        None => steps.push(ShopStep::BadField { index: i, field: ItemField::Remain }),
                        Some(remain) => match parse_u32(g.cost.as_str()) {
                            None => steps.push(ShopStep::BadField { index: i, field: ItemField::Cost }),
                            Some(cost) => {
                                if cost == 0 {
                                    steps.push(ShopStep::ZeroCost { index: i });
                                } else {
                                    match parse_u32(g.limit.as_str()) {
                                        None => steps.push(ShopStep::BadField { index: i, field: ItemField::Limit }),
                                        Some(limit) => {
                                            let m = calc_max_exchange(w, limit, remain, left, cost);
                                            if m != 0 {
                                                proof {
                                                    law_exchange_affordable(w, limit, remain, left, cost);
                                                }
                                                steps.push(ShopStep::Exchange { index: i, tens: m / 10, ones: m % 10 });
                                                left = left - cost * m;
                                            }
                                        },
                                    }
                                }
                            },
                        },
                    }
                }
            },
        }
        i = i + 1;
    }
    ShopPlan::Steps(steps)
}

/// Tier `t` as one claim: the tier when `open` holds, nothing otherwise.
pub open spec fn tier_if(open: bool, t: u32) -> Seq<u32> {
    if open {
        seq![t]
    } else {
        seq![]
    }
}

/// Tier 1 is claimed from 1 bout on, tier 2 from 8, tier 3 from 18, tier 4 from 26 and
/// tier 5 from 36, each only while its bit of the flag (bit 0 for tier 1) is clear; the
/// tiers come in increasing order and nothing else is claimed.
pub proof fn law_reward_tiers(times: u32, flag: u32)
    ensures
        rewards_upto(times, flag, 5) == tier_if(times >= 1 && tier_unclaimed(flag, 0), 1) + tier_if(
            times >= 8 && tier_unclaimed(flag, 1),
            2,
        ) + tier_if(times >= 18 && tier_unclaimed(flag, 2), 3) + tier_if(
            times >= 26 && tier_unclaimed(flag, 3),
            4,
        ) + tier_if(times >= 36 && tier_unclaimed(flag, 4), 5),
{
    let a = tier_if(times >= 1 && tier_unclaimed(flag, 0), 1);
    let b = tier_if(times >= 8 && tier_unclaimed(flag, 1), 2);
    let c = tier_if(times >= 18 && tier_unclaimed(flag, 2), 3);
    let d = tier_if(times >= 26 && tier_unclaimed(flag, 3), 4);
    let e = tier_if(times >= 36 && tier_unclaimed(flag, 4), 5);
    assert(rewards_upto(times, flag, 0) =~= Seq::<u32>::empty());
    assert(rewards_upto(times, flag, 1) =~= a);
    assert(rewards_upto(times, flag, 2) =~= a + b);
    assert(rewards_upto(times, flag, 3) =~= a + b + c);
    assert(rewards_upto(times, flag, 4) =~= a + b + c + d);
    assert(rewards_upto(times, flag, 5) =~= a + b + c + d + e);
}

/// Over the month: an account not signed up signs up on days 1 to 3 only; a signed-up
/// account challenges only on days 4 to 25, between 8 and 22 o'clock, with challenges
/// left and a battle list that is not empty; the season ends from day 27 on for a
/// signed-up account; every other visit does nothing.
pub proof fn law_martial_calendar(signed: bool, times: Seq<char>, battles: nat, day: u32, hour: u32)
    ensures
        (spec_martial_step(signed, times, battles, day, hour) == MartialStep::SignUp) <==> (!signed && 1 <= day
            <= 3),
        (spec_martial_step(signed, times, battles, day, hour) == MartialStep::Challenge) <==> (signed && 4 <= day
            <= 25 && times != "0"@ && 8 <= hour < 22 && battles > 0),
        (spec_martial_step(signed, times, battles, day, hour) == MartialStep::SeasonEnd) <==> (signed && day
            >= 27),
{
}

} // verus!
