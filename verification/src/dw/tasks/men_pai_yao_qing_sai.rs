//! The sect invitational: signs up, claims the tier reward, fights the free fights and
//! exchanges when all five free fights were left.
use vstd::prelude::*;

use crate::common::config::MenPaiExchange;
use crate::text::{parse_u32, spec_parse_u32, str_eq};

verus! {

/// What `u8::from_str` gives: the `u32` reading when it fits in a `u8`.
pub open spec fn spec_parse_u8(s: Seq<char>) -> Option<u8> {
    match spec_parse_u32(s) {
        Some(v) => if v <= 255 { Some(v as u8) } else { None },
        None => None,
    }
}

/// Parses a decimal `u8` as `u8::from_str` does.
pub fn parse_u8(s: &str) -> (r: Option<u8>)
    ensures
        r == spec_parse_u8(s@),
{
    match parse_u32(s) {
        Some(v) => if v <= 255 {
            Some(v as u8)
        } else {
            None
        },
        None => None,
    }
}

/// What to do on a visit of the invitational.
#[derive(Debug, Clone, Copy, PartialEq, Eq, Structural)]
pub enum TournamentStep {
    /// Nothing now.
    Idle,
    /// Sign up, then claim the tier reward.
    SignUp,
    /// The count of fights left is no number.
    BadTimes,
    /// Fight `free` times (stopping at the first refusal), then visit the shop when `shop`.
    Fight { free: u8, shop: bool },
}

pub open spec fn spec_tournament_step(
    in_sign_up_time: Seq<char>,
    in_group: Seq<char>,
    in_fight_time: Seq<char>,
    left_fight_times: Seq<char>,
) -> TournamentStep {
    if in_sign_up_time == "1"@ {
        if in_group == "0"@ { TournamentStep::SignUp } else { TournamentStep::Idle }
    } else if in_fight_time != "1"@ {
        TournamentStep::Idle
    } else {
        match spec_parse_u8(left_fight_times) {
            None => TournamentStep::BadTimes,
            Some(left) => {
                let free: u8 = if left >= 5 { (left - 5) as u8 } else { 0 };
                TournamentStep::Fight { free, shop: free == 5 }
            },
        }
    }
}

/// The step from the invitational's page: in the sign-up period, sign up when not in a
/// team yet; in the fight period, fight the free fights (the fights left beyond the 5
/// paid ones) and visit the shop when all 5 free ones were left.
pub fn tournament_step(
    in_sign_up_time: &str,
    in_group: &str,
    in_fight_time: &str,
    left_fight_times: &str,
) -> (r: TournamentStep)
    ensures
        r == spec_tournament_step(in_sign_up_time@, in_group@, in_fight_time@, left_fight_times@),
{
    if str_eq(in_sign_up_time, "1") {
        if str_eq(in_group, "0") {
            return TournamentStep::SignUp;
        }
        return TournamentStep::Idle;
    }
    if !str_eq(in_fight_time, "1") {
        return TournamentStep::Idle;
    }
    match parse_u8(left_fight_times) {
        None => TournamentStep::BadTimes,
        Some(left) => {
            let free: u8 = if left >= 5 {
                left - 5
            } else {
                0
            };
            TournamentStep::Fight { free, shop: free == 5 }
        },
    }
}

/// A good of the invitational's shop.
#[derive(Debug, Clone)]
pub struct ShopItem {
    /// The exchange type id.
    pub t: String,
    pub name: String,
    /// Price in shop points.
    pub needs_num: String,
}

/// One step of a visit to the invitational's shop.
#[derive(Debug, Clone, Copy, PartialEq, Eq, Structural)]
pub enum ShopStep {
    /// Exchange the good at `index`: `tens` batches of 10, then `ones` batches of 1.
    Exchange { index: usize, tens: u32, ones: u32 },
    /// The price of the good at `index` is no number; the good is skipped.
    BadPrice { index: usize },
    /// The price of the good at `index` is 0; the good is skipped.
    ZeroPrice { index: usize },
}

/// Whether a shop visit happens at all, and how it goes.
#[derive(Debug, Clone)]
pub enum ShopPlan {
    /// No good is configured: the shop is not opened.
    NothingWanted,
    /// The shop points are no number.
    BadScore,
    /// Fewer than 40 points, the price of a good.
    ScoreTooLow,
    /// The steps, in the order of the goods.
    Steps(Vec<ShopStep>),
}

pub open spec fn spec_want(ex: MenPaiExchange, name: Seq<char>) -> Option<u32> {
    if name == "炼气石"@ {
        Some(ex.lian_qi_shi)
    } else if name == "门派强化书"@ {
        Some(ex.men_pai_qiang_hua_shu)
    } else {
        None
    }
}

/// How many of a good to exchange: the configured amount, at most what the score pays for.
pub open spec fn spec_exchange_count(want: u32, score: u32, price: u32) -> u32 {
    let affordable = score / price;
    if want <= affordable { want } else { affordable }
}

/// The steps for the first `n` goods, starting from `score`, with the score left.
pub open spec fn shop_steps(ex: MenPaiExchange, items: Seq<ShopItem>, n: int, score: u32) -> (Seq<ShopStep>, u32)
    decreases n,
{
    if n <= 0 {
        (seq![], score)
    } else {
        let (prev, s) = shop_steps(ex, items, n - 1, score);
        let g = items[n - 1];
        let idx = (n - 1) as usize;
        match spec_want(ex, g.name@) {
            None => (prev, s),
            Some(w) => if w == 0 {
                (prev, s)
            } else {
                match spec_parse_u32(g.needs_num@) {
                    None => (prev.push(ShopStep::BadPrice { index: idx }), s),
                    Some(p) => if p == 0 {
                        (prev.push(ShopStep::ZeroPrice { index: idx }), s)
                    } else {
                        let m = spec_exchange_count(w, s, p);
                        if m == 0 {
                            (prev, s)
                        } else {
                            (
                                prev.push(ShopStep::Exchange { index: idx, tens: m / 10, ones: m % 10 }),
                                (s - p * m) as u32,
                            )
                        }
                    },
                }
            },
        }
    }
}

proof fn lemma_exchange_affordable(want: u32, score: u32, price: u32)
    requires
        price > 0,
    ensures
        spec_exchange_count(want, score, price) * price <= score,
        price * spec_exchange_count(want, score, price) <= score,
{
    let m = spec_exchange_count(want, score, price);
    assert((score / price) * price <= score) by (nonlinear_arith)
        requires
            price > 0,
    ;
    assert(m * price <= (score / price) * price) by (nonlinear_arith)
        requires
            m <= score / price,
            price > 0,
    ;
}

/// Whether the shop is visited at all: only when some good is configured.
pub fn shop_wanted(ex: &MenPaiExchange) -> (r: bool)
    ensures
        r == !(ex.lian_qi_shi == 0 && ex.men_pai_qiang_hua_shu == 0),
{
    !(ex.lian_qi_shi == 0 && ex.men_pai_qiang_hua_shu == 0)
}

/// A visit to the invitational's shop: with at least 40 points, each configured good is
/// exchanged as often as configured and paid for, in batches of ten and then of one, and
/// its cost is taken from the score before the next good.
pub fn shop_plan(ex: &MenPaiExchange, score: &str, items: &Vec<ShopItem>) -> (r: ShopPlan)
    ensures
        ex.lian_qi_shi == 0 && ex.men_pai_qiang_hua_shu == 0 ==> r is NothingWanted,
        !(ex.lian_qi_shi == 0 && ex.men_pai_qiang_hua_shu == 0) && spec_parse_u32(score@) is None
            ==> r is BadScore,
        !(ex.lian_qi_shi == 0 && ex.men_pai_qiang_hua_shu == 0) && spec_parse_u32(score@) is Some
            && spec_parse_u32(score@)->0 < 40 ==> r is ScoreTooLow,
        !(ex.lian_qi_shi == 0 && ex.men_pai_qiang_hua_shu == 0) && spec_parse_u32(score@) is Some
            && spec_parse_u32(score@)->0 >= 40 ==> (r matches ShopPlan::Steps(v) && v@ == shop_steps(
            *ex,
            items@,
            items@.len() as int,
            spec_parse_u32(score@)->0,
        ).0),
{
    if !shop_wanted(ex) {
        return ShopPlan::NothingWanted;
    }
    let score0 = match parse_u32(score) {
        Some(v) => v,
        None => return ShopPlan::BadScore,
    };
    if score0 < 40 {
        return ShopPlan::ScoreTooLow;
    }
    let mut steps: Vec<ShopStep> = Vec::new();
    let mut left: u32 = score0;
    let mut i: usize = 0;
    while i < items.len()
        invariant
            i <= items@.len(),
            shop_steps(*ex, items@, i as int, score0) == (steps@, left),
        decreases items@.len() - i,
    {
        let g = &items[i];
        let want = if str_eq(g.name.as_str(), "炼气石") {
            Some(ex.lian_qi_shi)
        } else if str_eq(g.name.as_str(), "门派强化书") {
            Some(ex.men_pai_qiang_hua_shu)
        } else {
            None
        };
        match want {
            None => {},
            Some(w) => {
                if w != 0 {
                    match parse_u32(g.needs_num.as_str()) {
                        None => steps.push(ShopStep::BadPrice { index: i }),
                        Some(p) => {
                            if p == 0 {
                                steps.push(ShopStep::ZeroPrice { index: i });
                            } else {
                                let affordable = left / p;
                                let m = if w <= affordable {
                                    w
                                } else {
                                    affordable
                                };
                                if m != 0 {
                                    proof {
                                        assert(m == spec_exchange_count(w, left, p));
                                        lemma_exchange_affordable(w, left, p);
                                    }
                                    steps.push(ShopStep::Exchange { index: i, tens: m / 10, ones: m % 10 });
                                    left = left - p * m;
                                }
                            }
                        },
                    }
                }
            },
        }
        i = i + 1;
    }
    ShopPlan::Steps(steps)
}


/// The invitational: in the sign-up period sign up exactly when in no team; in the fight
/// period fight only the fights left beyond the five paid ones, and visit the shop exactly
/// when all five free fights are left.
pub proof fn law_tournament_steps(sign: Seq<char>, group: Seq<char>, fight: Seq<char>, left: Seq<char>)
    ensures
        (spec_tournament_step(sign, group, fight, left) == TournamentStep::SignUp) <==> (sign == "1"@ && group
            == "0"@),
        sign != "1"@ && fight != "1"@ ==> spec_tournament_step(sign, group, fight, left) == TournamentStep::Idle,
        sign != "1"@ && fight == "1"@ ==> match spec_parse_u8(left) {
            None => spec_tournament_step(sign, group, fight, left) == TournamentStep::BadTimes,
            Some(n) => spec_tournament_step(sign, group, fight, left) matches TournamentStep::Fight { free, shop } && free
                + 5 == (if n >= 5 { n as int } else { 5 }) && shop == (n == 10),
        },
{
}

/// Each good of the shop is wanted as often as the setting named after it says: 炼气石 by
/// `lian_qi_shi`, 门派强化书 by `men_pai_qiang_hua_shu`; other goods are not configured.
pub proof fn law_want_follows_its_setting(ex: MenPaiExchange, name: Seq<char>)
    ensures
        spec_want(ex, "炼气石"@) == Some(ex.lian_qi_shi),
        spec_want(ex, "门派强化书"@) == Some(ex.men_pai_qiang_hua_shu),
        name != "炼气石"@ && name != "门派强化书"@ ==> spec_want(ex, name) is None,
{
    reveal_strlit("炼气石");
    reveal_strlit("门派强化书");
    assert("炼气石"@.len() != "门派强化书"@.len());
}

/// An exchange takes the configured amount when the score pays for it, and otherwise as
/// many as the score pays for: never more than configured, never more than affordable.
pub proof fn law_exchange_count(want: u32, score: u32, price: u32)
    requires
        price > 0,
    ensures
        spec_exchange_count(want, score, price) <= want,
        spec_exchange_count(want, score, price) * price <= score,
        spec_exchange_count(want, score, price) == want || (spec_exchange_count(want, score, price) + 1) * price
            > score,
{
    let r = spec_exchange_count(want, score, price);
    let a = score / price;
    assert(a * price <= score && (a + 1) * price > score) by (nonlinear_arith)
        requires
            price > 0,
            a == score / price,
    ;
    assert(r * price <= a * price) by (nonlinear_arith)
        requires
            r <= a,
            price > 0,
    ;
}

/// What the exchanges among `steps` cost: for each, the price of its good times the
/// number bought (`tens` batches of ten and `ones` of one).
pub open spec fn steps_cost(items: Seq<ShopItem>, steps: Seq<ShopStep>) -> int
    decreases steps.len(),
{
    if steps.len() == 0 {
        0
    } else {
        steps_cost(items, steps.drop_last()) + match steps.last() {
            ShopStep::Exchange { index, tens, ones } => match spec_parse_u32(items[index as int].needs_num@) {
                Some(p) => p * (tens * 10 + ones),
                None => 0,
            },
            _ => 0,
        }
    }
}

/// A visit spends exactly what its exchanges cost and never more than the score: the
/// score left is the score held less the price of every good bought. Each exchange is for
/// a good listed in the shop and configured, and buys at least one and no more than the
/// configured amount.
pub proof fn law_shop_spends_the_score(ex: MenPaiExchange, items: Seq<ShopItem>, n: int, score: u32)
    requires
        0 <= n <= items.len(),
        items.len() <= usize::MAX,
    ensures
        steps_cost(items, shop_steps(ex, items, n, score).0) + shop_steps(ex, items, n, score).1 == score,
        forall|k: int|
            0 <= k < shop_steps(ex, items, n, score).0.len() ==> (#[trigger] shop_steps(ex, items, n, score).0[k] matches ShopStep::Exchange {
                index,
                tens,
                ones,
            } ==> (index < n && ones < 10 && (spec_want(ex, items[index as int].name@) matches Some(w) && 0 < tens * 10
                + ones <= w))),
    decreases n,
{
    if n > 0 {
        law_shop_spends_the_score(ex, items, n - 1, score);
        let (prev, s) = shop_steps(ex, items, n - 1, score);
        let (cur, t) = shop_steps(ex, items, n, score);
        let g = items[n - 1];
        if cur != prev {
            assert(cur.drop_last() =~= prev);
            assert forall|k: int| 0 <= k < prev.len() implies #[trigger] cur[k] == prev[k] by {}
            if cur.last() is Exchange {
                let w = spec_want(ex, g.name@)->0;
                let p = spec_parse_u32(g.needs_num@)->0;
                let m = spec_exchange_count(w, s, p);
                law_exchange_count(w, s, p);
                assert(p * m == m * p) by (nonlinear_arith);
                assert((m / 10) * 10 + m % 10 == m) by (nonlinear_arith);
                assert(((n - 1) as usize) as int == n - 1);
                assert(cur.last() == ShopStep::Exchange { index: (n - 1) as usize, tens: m / 10, ones: m % 10 });
                assert(p * ((m / 10) * 10 + m % 10) == p * m);
                assert(steps_cost(items, cur) == steps_cost(items, prev) + p * m);
            }
        }
    }
}

} // verus!
