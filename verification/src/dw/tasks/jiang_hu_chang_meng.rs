//! Long dream of the martial world: the decisions of a dream instance and of the
//! exchange shop.
//!
//! Instances prefer the battles with the most coins; a lost battle ends the memory.
//! The shop opens on Thursdays.
use vstd::prelude::*;

use crate::common::config::ChangMengExchange;
use crate::text::{
    char_is_ascii_digit, is_ascii_digit, parse_u32, push_str, spec_parse_u32, str_eq, string_push,
    to_chars,
};

verus! {

/// One event offered on a day of an instance.
#[derive(Debug, Clone)]
pub struct EventList {
    /// Event type: `"1"` adventure, `"2"` shop, `"3"` battle.
    pub t: String,
    /// Description; only battles have one.
    pub info: String,
}

/// The state of an instance as the server reports it.
#[derive(Debug, Clone)]
pub struct Begin {
    pub result: String,
    pub msg: String,
    /// `"1"` when the battle was lost.
    pub win: String,
    /// `"1"` when the next day can be entered.
    pub choose: String,
    pub cur_days: String,
    pub max_days: String,
    /// Description of the adventure.
    pub event_desc: String,
    pub event_list: Vec<EventList>,
}

/// The marker that precedes a coin amount.
pub open spec fn coin_marker() -> Seq<char> {
    seq!['金', '币', '：']
}

/// Length of the run of ASCII digits of `s` that starts at `i`.
pub open spec fn digit_run(s: Seq<char>, i: int) -> nat
    decreases s.len() - i,
{
    if 0 <= i < s.len() && is_ascii_digit(s[i]) {
        1 + digit_run(s, i + 1)
    } else {
        0
    }
}

/// The coin amount announced by a marker at index `p`: the digits that follow it, read
/// as a `u32` (no digits, or too large a number, give none).
pub open spec fn coin_at(s: Seq<char>, p: int) -> Option<u32> {
    if 0 <= p && p + 3 <= s.len() && s.subrange(p, p + 3) == coin_marker() {
        spec_parse_u32(s.subrange(p + 3, p + 3 + digit_run(s, p + 3)))
    } else {
        None
    }
}

/// The larger of two optional amounts.
pub open spec fn max_opt(a: Option<u32>, b: Option<u32>) -> Option<u32> {
    match (a, b) {
        (Some(x), Some(y)) => Some(if x >= y { x } else { y }),
        (Some(x), None) => Some(x),
        (None, y) => y,
    }
}

/// The largest coin amount announced at a marker starting before index `n`.
pub open spec fn max_coin_upto(s: Seq<char>, n: int) -> Option<u32>
    decreases n,
{
    if n <= 0 {
        None
    } else {
        max_opt(max_coin_upto(s, n - 1), coin_at(s, n - 1))
    }
}

/// The largest coin amount announced in `info`.
pub open spec fn spec_coins(info: Seq<char>) -> Option<u32> {
    max_coin_upto(info, info.len() as int)
}

fn digit_run_exec(v: &Vec<char>, i: usize) -> (r: usize)
    requires
        i <= v@.len(),
    ensures
        r == digit_run(v@, i as int),
        i + r <= v@.len(),
    decreases v@.len() - i,
{
    if i < v.len() && char_is_ascii_digit(v[i]) {
        let rest = digit_run_exec(v, i + 1);
        1 + rest
    } else {
        0
    }
}

/// The largest coin amount announced in `info`: the digits after each `金币：`, read as a
/// `u32`; `None` when there is none.
pub fn jin_bi_shu(info: &str) -> (r: Option<u32>)
    ensures
        r == spec_coins(info@),
{
    let v = to_chars(info);
    let mut best: Option<u32> = None;
    let mut p: usize = 0;
    while p < v.len()
        invariant
            v@ == info@,
            p <= v@.len(),
            best == max_coin_upto(v@, p as int),
        decreases v@.len() - p,
    {
        let mut here: Option<u32> = None;
        if v.len() - p >= 3 && v[p] == '金' && v[p + 1] == '币' && v[p + 2] == '：' {
            let run = digit_run_exec(&v, p + 3);
            let mut digits = String::new();
            let end = p + 3 + run;
            let mut k = p + 3;
            while k < end
                invariant
                    end == p + 3 + run,
                    p + 3 <= k <= end <= v@.len(),
                    digits@ == v@.subrange(p + 3, k as int),
                decreases end - k,
            {
                string_push(&mut digits, v[k]);
                assert(v@.subrange(p + 3, k + 1) =~= v@.subrange(p + 3, k as int).push(v@[k as int]));
                k = k + 1;
            }
            here = parse_u32(digits.as_str());
            assert(v@.subrange(p as int, p + 3) =~= coin_marker());
        } else {
            proof {
                if p + 3 <= v@.len() && v@.subrange(p as int, p + 3) == coin_marker() {
                    assert(v@.subrange(p as int, p + 3)[0] == v@[p as int]);
                    assert(v@.subrange(p as int, p + 3)[1] == v@[p + 1]);
                    assert(v@.subrange(p as int, p + 3)[2] == v@[p + 2]);
                }
            }
        }
        assert(here == coin_at(v@, p as int));
        best = match (best, here) {
            (Some(x), Some(y)) => Some(if x >= y { x } else { y }),
            (Some(x), None) => Some(x),
            (None, y) => y,
        };
        p = p + 1;
    }
    best
}

/// The id of an event: its 1-based position, as a `u8`.
pub open spec fn event_id(i: int) -> u8 {
    (i + 1) as u8
}

/// The best battle among the first `n` events: the first one with the largest coin amount
/// (battles without an amount are skipped), with that amount.
pub open spec fn best_battle_upto(ev: Seq<EventList>, n: int) -> Option<(u8, u32)>
    decreases n,
{
    if n <= 0 {
        None
    } else {
        let prev = best_battle_upto(ev, n - 1);
        let e = ev[n - 1];
        if e.t@ == "3"@ {
            match spec_coins(e.info@) {
                Some(c) => match prev {
                    Some(b) => if c > b.1 {
                        Some((event_id(n - 1), c))
                    } else {
                        prev
                    },
                    None => Some((event_id(n - 1), c)),
                },
                None => prev,
            }
        } else {
            prev
        }
    }
}

/// The id of the first event of type `t` among the first `n` events.
pub open spec fn first_of_type_upto(ev: Seq<EventList>, t: Seq<char>, n: int) -> Option<u8>
    decreases n,
{
    if n <= 0 {
        None
    } else {
        match first_of_type_upto(ev, t, n - 1) {
            Some(id) => Some(id),
            None => if ev[n - 1].t@ == t {
                Some(event_id(n - 1))
            } else {
                None
            },
        }
    }
}

/// The battle to fight: the one with most coins, else the first battle.
pub open spec fn spec_battle(ev: Seq<EventList>) -> Option<u8> {
    match best_battle_upto(ev, ev.len() as int) {
        Some(b) => Some(b.0),
        None => first_of_type_upto(ev, "3"@, ev.len() as int),
    }
}

proof fn lemma_max_coin(s: Seq<char>, n: int)
    requires
        0 <= n,
    ensures
        forall|p: int| 0 <= p < n && #[trigger] coin_at(s, p) is Some ==> max_coin_upto(s, n) is Some
            && coin_at(s, p)->0 <= max_coin_upto(s, n)->0,
        max_coin_upto(s, n) is Some ==> exists|p: int| 0 <= p < n && #[trigger] coin_at(s, p) == max_coin_upto(s, n),
    decreases n,
{
    if n > 0 {
        lemma_max_coin(s, n - 1);
        let prev = max_coin_upto(s, n - 1);
        let here = coin_at(s, n - 1);
        if prev is Some && !(here is Some && here->0 > prev->0) {
            let p = choose|p: int| 0 <= p < n - 1 && #[trigger] coin_at(s, p) == prev;
            assert(0 <= p < n && coin_at(s, p) == max_coin_upto(s, n));
        } else if here is Some {
            assert(coin_at(s, n - 1) == max_coin_upto(s, n));
        }
    }
}

/// The coins of a battle are the largest amount announced after a `金币：` marker in its
/// description: no announced amount is larger, and the result is one of them; `None`
/// exactly when no marker announces an amount.
pub proof fn law_coins_are_the_largest(info: Seq<char>)
    ensures
        forall|p: int| 0 <= p < info.len() && #[trigger] coin_at(info, p) is Some ==> spec_coins(info) is Some
            && coin_at(info, p)->0 <= spec_coins(info)->0,
        spec_coins(info) is Some ==> exists|p: int| 0 <= p < info.len() && #[trigger] coin_at(info, p) == spec_coins(info),
{
    lemma_max_coin(info, info.len() as int);
}

/// A battle (type `"3"`) that announces coins.
pub open spec fn paying_battle(e: EventList) -> bool {
    e.t@ == "3"@ && spec_coins(e.info@) is Some
}

proof fn lemma_first_of_type(ev: Seq<EventList>, t: Seq<char>, n: int)
    requires
        0 <= n <= ev.len(),
    ensures
        first_of_type_upto(ev, t, n) is None ==> forall|j: int| 0 <= j < n ==> (#[trigger] ev[j]).t@ != t,
        first_of_type_upto(ev, t, n) is Some ==> exists|i: int|
            0 <= i < n && (#[trigger] ev[i]).t@ == t && first_of_type_upto(ev, t, n) == Some(event_id(i))
                && forall|j: int| 0 <= j < i ==> (#[trigger] ev[j]).t@ != t,
    decreases n,
{
    if n > 0 {
        lemma_first_of_type(ev, t, n - 1);
        if first_of_type_upto(ev, t, n - 1) is Some {
            let i = choose|i: int|
                0 <= i < n - 1 && (#[trigger] ev[i]).t@ == t && first_of_type_upto(ev, t, n - 1) == Some(event_id(i))
                    && forall|j: int| 0 <= j < i ==> (#[trigger] ev[j]).t@ != t;
            assert(0 <= i < n && ev[i].t@ == t);
        } else if ev[n - 1].t@ == t {
            assert(forall|j: int| 0 <= j < n - 1 ==> (#[trigger] ev[j]).t@ != t);
            assert(first_of_type_upto(ev, t, n) == Some(event_id(n - 1)));
        }
    }
}

/// The event of a type that a day offers is its first event of that type: its id is its
/// position counted from 1, no earlier event has that type, and there is none exactly
/// when no event has it.
pub proof fn law_first_of_type(ev: Seq<EventList>, t: Seq<char>)
    ensures
        first_of_type_upto(ev, t, ev.len() as int) is None ==> forall|j: int| 0 <= j < ev.len() ==> (
            #[trigger] ev[j]).t@ != t,
        first_of_type_upto(ev, t, ev.len() as int) is Some ==> exists|i: int|
            0 <= i < ev.len() && (#[trigger] ev[i]).t@ == t && first_of_type_upto(ev, t, ev.len() as int) == Some(
                event_id(i),
            ) && forall|j: int| 0 <= j < i ==> (#[trigger] ev[j]).t@ != t,
{
    lemma_first_of_type(ev, t, ev.len() as int);
}

proof fn lemma_best_battle(ev: Seq<EventList>, n: int)
    requires
        0 <= n <= ev.len(),
    ensures
        forall|j: int| 0 <= j < n && paying_battle(#[trigger] ev[j]) ==> best_battle_upto(ev, n) is Some
            && spec_coins(ev[j].info@)->0 <= best_battle_upto(ev, n).unwrap().1,
        best_battle_upto(ev, n) is Some ==> exists|i: int|
            0 <= i < n && paying_battle(#[trigger] ev[i]) && spec_coins(ev[i].info@) == Some(best_battle_upto(ev, n).unwrap().1)
                && best_battle_upto(ev, n).unwrap().0 == event_id(i) && forall|j: int|
                0 <= j < i && paying_battle(#[trigger] ev[j]) ==> spec_coins(ev[j].info@)->0 < best_battle_upto(
                    ev,
                    n,
                ).unwrap().1,
    decreases n,
{
    if n > 0 {
        lemma_best_battle(ev, n - 1);
        let prev = best_battle_upto(ev, n - 1);
        let cur = best_battle_upto(ev, n);
        let e = ev[n - 1];
        if paying_battle(e) && (prev is None || spec_coins(e.info@)->0 > prev.unwrap().1) {
            assert(cur == Some((event_id(n - 1), spec_coins(e.info@)->0)));
            assert forall|j: int| 0 <= j < n - 1 && paying_battle(#[trigger] ev[j]) implies spec_coins(
                ev[j].info@,
            )->0 < cur.unwrap().1 by {}
        } else {
            assert(cur == prev);
            if prev is Some {
                let i = choose|i: int|
                    0 <= i < n - 1 && paying_battle(#[trigger] ev[i]) && spec_coins(ev[i].info@) == Some(prev.unwrap().1)
                        && prev.unwrap().0 == event_id(i) && forall|j: int|
                        0 <= j < i && paying_battle(#[trigger] ev[j]) ==> spec_coins(ev[j].info@)->0 < prev.unwrap().1;
                assert(0 <= i < n && paying_battle(ev[i]));
            }
        }
    }
}

/// The battle fought is the first battle with the largest coin amount: when some battle
/// announces coins, the one chosen announces at least as many as every battle, strictly
/// more than every battle before it, and its id is its position counted from 1; when
/// none does, the first battle is fought.
pub proof fn law_richest_battle(ev: Seq<EventList>)
    ensures
        (exists|j: int| 0 <= j < ev.len() && paying_battle(#[trigger] ev[j])) ==> exists|i: int|
            0 <= i < ev.len() && paying_battle(#[trigger] ev[i]) && spec_battle(ev) == Some(event_id(i)) && (
            forall|j: int|
                0 <= j < ev.len() && paying_battle(#[trigger] ev[j]) ==> spec_coins(ev[j].info@)->0 <= spec_coins(
                    ev[i].info@,
                )->0) && (forall|j: int|
                0 <= j < i && paying_battle(#[trigger] ev[j]) ==> spec_coins(ev[j].info@)->0 < spec_coins(
                    ev[i].info@,
                )->0),
        (forall|j: int| 0 <= j < ev.len() ==> !paying_battle(#[trigger] ev[j])) ==> spec_battle(ev)
            == first_of_type_upto(ev, "3"@, ev.len() as int),
{
    let n = ev.len() as int;
    lemma_best_battle(ev, n);
    if exists|j: int| 0 <= j < n && paying_battle(#[trigger] ev[j]) {
        assert(best_battle_upto(ev, n) is Some);
        let b = best_battle_upto(ev, n)->0;
        let i = choose|i: int|
            0 <= i < n && paying_battle(#[trigger] ev[i]) && spec_coins(ev[i].info@) == Some(b.1) && b.0 == event_id(i)
                && forall|j: int| 0 <= j < i && paying_battle(#[trigger] ev[j]) ==> spec_coins(ev[j].info@)->0 < b.1;
        assert(spec_battle(ev) == Some(event_id(i)));
    } else {
        if best_battle_upto(ev, n) is Some {
            let b = best_battle_upto(ev, n)->0;
            let i = choose|i: int|
                0 <= i < n && paying_battle(#[trigger] ev[i]) && spec_coins(ev[i].info@) == Some(b.1) && b.0
                    == event_id(i) && forall|j: int|
                    0 <= j < i && paying_battle(#[trigger] ev[j]) ==> spec_coins(ev[j].info@)->0 < b.1;
            assert(paying_battle(ev[i]));
        }
    }
}

/// The battle to fight: the first one with the largest coin amount in its description,
/// or, when no battle announces coins, the first battle.
pub fn zhan_dou(data: &Begin) -> (r: Option<u8>)
    ensures
        r == spec_battle(data.event_list@),
{
    let ev = &data.event_list;
    let mut best: Option<(u8, u32)> = None;
    let mut fallback: Option<u8> = None;
    let mut i: usize = 0;
    while i < ev.len()
        invariant
            i <= ev@.len(),
            ev@ == data.event_list@,
            best == best_battle_upto(ev@, i as int),
            fallback == first_of_type_upto(ev@, "3"@, i as int),
        decreases ev@.len() - i,
    {
        let item = &ev[i];
        if str_eq(item.t.as_str(), "3") {
            let id = (i + 1) as u8;
            if fallback.is_none() {
                fallback = Some(id);
            }
            match jin_bi_shu(item.info.as_str()) {
                Some(n) => {
                    let better = match best {
                        Some((_, b)) => n > b,
                        None => true,
                    };
                    if better {
                        best = Some((id, n));
                    }
                },
                None => {},
            }
        }
        i = i + 1;
    }
    match best {
        Some((id, _)) => Some(id),
        None => fallback,
    }
}

fn first_of_type(data: &Begin, t: &str) -> (r: Option<u8>)
    ensures
        r == first_of_type_upto(data.event_list@, t@, data.event_list@.len() as int),
{
    let ev = &data.event_list;
    let mut i: usize = 0;
    while i < ev.len()
        invariant
            i <= ev@.len(),
            ev@ == data.event_list@,
            first_of_type_upto(ev@, t@, i as int) is None,
        decreases ev@.len() - i,
    {
        if str_eq(ev[i].t.as_str(), t) {
            proof {
                lemma_first_of_type_stays(ev@, t@, i + 1, ev@.len() as int);
            }
            return Some((i + 1) as u8);
        }
        i = i + 1;
    }
    None
}

proof fn lemma_first_of_type_stays(ev: Seq<EventList>, t: Seq<char>, m: int, n: int)
    requires
        0 <= m <= n,
        first_of_type_upto(ev, t, m) is Some,
    ensures
        first_of_type_upto(ev, t, n) == first_of_type_upto(ev, t, m),
    decreases n - m,
{
    if n > m {
        lemma_first_of_type_stays(ev, t, m, n - 1);
    }
}

/// The adventure event: the first event of type `"1"`.
pub fn qi_yu(data: &Begin) -> (r: Option<u8>)
    ensures
        r == first_of_type_upto(data.event_list@, "1"@, data.event_list@.len() as int),
{
    first_of_type(data, "1")
}

/// The shop event: the first event of type `"2"`.
pub fn shang_dian(data: &Begin) -> (r: Option<u8>)
    ensures
        r == first_of_type_upto(data.event_list@, "2"@, data.event_list@.len() as int),
{
    first_of_type(data, "2")
}

/// The log line of an event: `copy => 第N天：msg`.
pub fn shi_jian_ri_zhi(copy_name: &str, cur_days: &str, msg: &str) -> (r: String)
    ensures
        r@ == copy_name@ + " => 第"@ + cur_days@ + "天："@ + msg@,
{
    let mut s = String::new();
    push_str(&mut s, copy_name);
    push_str(&mut s, " => 第");
    push_str(&mut s, cur_days);
    push_str(&mut s, "天：");
    push_str(&mut s, msg);
    s
}

/// How many to exchange: what is still wanted (the smaller of the configured and the
/// server's limit, less what was already exchanged), but no more than the score pays
/// for; nothing when the price is 0.
pub open spec fn spec_calc_max_exchange(want: u32, max_num: u32, num: u32, score: u32, price: u32) -> u32 {
    let cap: int = if want <= max_num { want as int } else { max_num as int };
    let need: int = if cap >= num { cap - num } else { 0 };
    let affordable: int = if price == 0 { 0 } else { (score / price) as int };
    (if need <= affordable { need } else { affordable }) as u32
}

/// How many of a good to exchange (see `spec_calc_max_exchange`).
pub fn calc_max_exchange(want: u32, max_num: u32, num: u32, score: u32, price: u32) -> (r: u32)
    ensures
        r == spec_calc_max_exchange(want, max_num, num, score, price),
{
    let cap = if want <= max_num {
        want
    } else {
        max_num
    };
    let need = if cap >= num {
        cap - num
    } else {
        0
    };
    let affordable = if price == 0 {
        0
    } else {
        score / price
    };
    if need <= affordable {
        need
    } else {
        affordable
    }
}

/// An exchange never asks for more than is wanted, than the server still has, or than the
/// score pays for.
pub proof fn law_exchange_within_limits(want: u32, max_num: u32, num: u32, score: u32, price: u32)
    ensures
        spec_calc_max_exchange(want, max_num, num, score, price) + num <= want || spec_calc_max_exchange(
            want,
            max_num,
            num,
            score,
            price,
        ) == 0,
        spec_calc_max_exchange(want, max_num, num, score, price) + num <= max_num
            || spec_calc_max_exchange(want, max_num, num, score, price) == 0,
        spec_calc_max_exchange(want, max_num, num, score, price) * price <= score,
        price * spec_calc_max_exchange(want, max_num, num, score, price) <= score,
{
    let r = spec_calc_max_exchange(want, max_num, num, score, price);
    if price > 0 {
        assert(r <= score / price);
        assert((score / price) * price <= score) by (nonlinear_arith)
            requires
                price > 0,
        ;
        assert(r * price <= (score / price) * price) by (nonlinear_arith)
            requires
                r <= score / price,
                price > 0,
        ;
    }
}

/// The three instances, each with its own way through the days.
#[derive(Debug, Clone, Copy, PartialEq, Eq, Structural)]
pub enum CopyKind {
    /// 柒承的忙碌日常
    QiCheng,
    /// 倚天屠龙归我心
    YiTian,
    /// 绝世秘籍之争
    JueShi,
}

pub open spec fn spec_copy_kind(name: Seq<char>) -> Option<CopyKind> {
    if name == "柒承的忙碌日常"@ {
        Some(CopyKind::QiCheng)
    } else if name == "倚天屠龙归我心"@ {
        Some(CopyKind::YiTian)
    } else if name == "绝世秘籍之争"@ {
        Some(CopyKind::JueShi)
    } else {
        None
    }
}

/// The kind of an instance by its name; other instances are not run.
pub fn copy_kind(name: &str) -> (r: Option<CopyKind>)
    ensures
        r == spec_copy_kind(name@),
{
    if str_eq(name, "柒承的忙碌日常") {
        Some(CopyKind::QiCheng)
    } else if str_eq(name, "倚天屠龙归我心") {
        Some(CopyKind::YiTian)
    } else if str_eq(name, "绝世秘籍之争") {
        Some(CopyKind::JueShi)
    } else {
        None
    }
}

pub open spec fn spec_run_count(limit: u32, incense: u32, status: Seq<char>) -> u32 {
    if limit == 0 {
        0
    } else {
        let n = if incense <= limit { incense } else { limit };
        if n == 0 && status == "2"@ { 1 } else { n }
    }
}

/// How many times an instance is run: as many as there are incense burners, at most the
/// configured limit; an instance in progress (`status` `"2"`) without burners is still run
/// once to end it. An instance with limit 0 is not run at all.
pub fn run_count(limit: u32, incense: u32, status: &str) -> (r: u32)
    ensures
        r == spec_run_count(limit, incense, status@),
{
    if limit == 0 {
        return 0;
    }
    let n = if incense <= limit {
        incense
    } else {
        limit
    };
    if n == 0 && str_eq(status, "2") {
        1
    } else {
        n
    }
}

/// What to do with the state of an instance.
#[derive(Debug, Clone, Copy, PartialEq, Eq, Structural)]
pub enum DayStep {
    /// The battle was lost: end the memory and stop.
    Lost,
    /// `cur_days` is no number: stop.
    BadCurDays,
    /// `max_days` is no number: stop.
    BadMaxDays,
    /// All days are done: end the memory, then run the instance again.
    Finished,
    /// Enter the next day.
    NextDay,
    /// Handle the events of the given day.
    Events(u32),
}

pub open spec fn spec_day_step(win: Seq<char>, choose: Seq<char>, cur_days: Seq<char>, max_days: Seq<char>) -> DayStep {
    if win == "1"@ {
        DayStep::Lost
    } else {
        match spec_parse_u32(cur_days) {
            None => DayStep::BadCurDays,
            Some(c) => match spec_parse_u32(max_days) {
                None => DayStep::BadMaxDays,
                Some(m) => if c > m {
                    DayStep::Finished
                } else if choose == "1"@ || c == 0 {
                    DayStep::NextDay
                } else {
                    DayStep::Events(c)
                },
            },
        }
    }
}

/// The next step of an instance from the state the server reported.
pub fn day_step(data: &Begin) -> (r: DayStep)
    ensures
        r == spec_day_step(data.win@, data.choose@, data.cur_days@, data.max_days@),
{
    if str_eq(data.win.as_str(), "1") {
        return DayStep::Lost;
    }
    let c = match parse_u32(data.cur_days.as_str()) {
        Some(v) => v,
        None => return DayStep::BadCurDays,
    };
    let m = match parse_u32(data.max_days.as_str()) {
        Some(v) => v,
        None => return DayStep::BadMaxDays,
    };
    if c > m {
        DayStep::Finished
    } else if str_eq(data.choose.as_str(), "1") || c == 0 {
        DayStep::NextDay
    } else {
        DayStep::Events(c)
    }
}

/// One way of getting through a day; each step is a request, and a failed request ends
/// the attempt.
#[derive(Debug, Clone, Copy, PartialEq, Eq, Structural)]
pub enum Attempt {
    /// Choose the event with this id.
    Event(u8),
    /// Choose the adventure event with this id, then this option of it.
    Adventure(u8, u8),
    /// The same adventure twice in a row: choose the event, then the option, two times.
    AdventureTwice(u8, u8),
}

pub open spec fn spec_adventure(ev: Seq<EventList>) -> Option<u8> {
    first_of_type_upto(ev, "1"@, ev.len() as int)
}

pub open spec fn spec_shop(ev: Seq<EventList>) -> Option<u8> {
    first_of_type_upto(ev, "2"@, ev.len() as int)
}

pub open spec fn battle_attempts(ev: Seq<EventList>) -> Seq<Attempt> {
    match spec_battle(ev) {
        Some(id) => seq![Attempt::Event(id)],
        None => seq![],
    }
}

pub open spec fn adventure_attempts(ev: Seq<EventList>, option: u8) -> Seq<Attempt> {
    match spec_adventure(ev) {
        Some(id) => seq![Attempt::Adventure(id, option)],
        None => seq![],
    }
}

/// The attempts of a day, tried in order until one succeeds: those the instance prescribes
/// for the day, then the shop event.
pub open spec fn spec_event_plan(kind: CopyKind, ev: Seq<EventList>, day: u32) -> Seq<Attempt> {
    let main = match kind {
        CopyKind::QiCheng => battle_attempts(ev) + adventure_attempts(ev, 2),
        CopyKind::YiTian => if day == 1 || day == 7 {
            adventure_attempts(ev, 1)
        } else if day == 8 {
            adventure_attempts(ev, 3)
        } else {
            battle_attempts(ev) + adventure_attempts(ev, 1)
        },
        CopyKind::JueShi => if day == 1 || day == 6 {
            adventure_attempts(ev, 1)
        } else if day == 3 {
            match spec_adventure(ev) {
                Some(id) => seq![Attempt::Event(id)],
                None => seq![],
            }
        } else if day == 4 {
            match spec_adventure(ev) {
                Some(id) => seq![Attempt::AdventureTwice(id, 2)],
                None => seq![],
            }
        } else {
            battle_attempts(ev)
        },
    };
    match spec_shop(ev) {
        Some(id) => main.push(Attempt::Event(id)),
        None => main,
    }
}

fn push_battle(plan: &mut Vec<Attempt>, data: &Begin)
    ensures
        final(plan)@ == old(plan)@ + battle_attempts(data.event_list@),
{
    match zhan_dou(data) {
        Some(id) => plan.push(Attempt::Event(id)),
        None => {},
    }
}

fn push_adventure(plan: &mut Vec<Attempt>, data: &Begin, option: u8)
    ensures
        final(plan)@ == old(plan)@ + adventure_attempts(data.event_list@, option),
{
    match qi_yu(data) {
        Some(id) => plan.push(Attempt::Adventure(id, option)),
        None => {},
    }
}

/// The attempts for a day of an instance (see `spec_event_plan`): 柒承 fights the richest
/// battle, else ignores the adventure; 倚天 follows its adventures on days 1, 7 and 8 and
/// otherwise fights, else takes the adventure; 绝世 follows its adventures on days 1, 3, 4
/// and 6 and otherwise fights. The shop event is the last resort.
pub fn event_plan(kind: CopyKind, data: &Begin, day: u32) -> (r: Vec<Attempt>)
    ensures
        r@ == spec_event_plan(kind, data.event_list@, day),
{
    let mut plan: Vec<Attempt> = Vec::new();
    match kind {
        CopyKind::QiCheng => {
            push_battle(&mut plan, data);
            push_adventure(&mut plan, data, 2);
        },
        CopyKind::YiTian => {
            if day == 1 || day == 7 {
                push_adventure(&mut plan, data, 1);
            } else if day == 8 {
                push_adventure(&mut plan, data, 3);
            } else {
                push_battle(&mut plan, data);
                push_adventure(&mut plan, data, 1);
            }
        },
        CopyKind::JueShi => {
            if day == 1 || day == 6 {
                push_adventure(&mut plan, data, 1);
            } else if day == 3 {
                match qi_yu(data) {
                    Some(id) => plan.push(Attempt::Event(id)),
                    None => {},
                }
            } else if day == 4 {
                match qi_yu(data) {
                    Some(id) => plan.push(Attempt::AdventureTwice(id, 2)),
                    None => {},
                }
            } else {
                push_battle(&mut plan, data);
            }
        },
    }
    match shang_dian(data) {
        Some(id) => plan.push(Attempt::Event(id)),
        None => {},
    }
    proof {
        assert(seq![] + battle_attempts(data.event_list@) =~= battle_attempts(data.event_list@));
        assert(seq![] + adventure_attempts(data.event_list@, 1) =~= adventure_attempts(data.event_list@, 1));
        assert(seq![] + adventure_attempts(data.event_list@, 3) =~= adventure_attempts(data.event_list@, 3));
    }
    plan
}

/// `main`, then the shop event of the day when there is one.
pub open spec fn then_shop(ev: Seq<EventList>, main: Seq<Attempt>) -> Seq<Attempt> {
    match first_of_type_upto(ev, "2"@, ev.len() as int) {
        Some(s) => main + seq![Attempt::Event(s)],
        None => main,
    }
}

/// The first adventure event of the day (type `"1"`) chosen with `option`, if there is one.
pub open spec fn adventure_with(ev: Seq<EventList>, option: u8) -> Seq<Attempt> {
    match first_of_type_upto(ev, "1"@, ev.len() as int) {
        Some(a) => seq![Attempt::Adventure(a, option)],
        None => seq![],
    }
}

/// The battle of the day, if there is one.
pub open spec fn the_battle(ev: Seq<EventList>) -> Seq<Attempt> {
    match spec_battle(ev) {
        Some(b) => seq![Attempt::Event(b)],
        None => seq![],
    }
}

/// The day plans of the three instances. 柒承 fights, else follows the adventure with
/// option 2. 倚天 follows its adventure with option 1 on days 1 and 7 and with option 3 on
/// day 8, and otherwise fights, else follows the adventure with option 1. 绝世 follows its
/// adventure with option 1 on days 1 and 6, enters it without an option on day 3, takes it
/// twice with option 2 on day 4, and fights on the other days. Every plan ends with the
/// shop event when the day offers one.
pub proof fn law_day_plans(ev: Seq<EventList>, day: u32)
    ensures
        spec_event_plan(CopyKind::QiCheng, ev, day) == then_shop(ev, the_battle(ev) + adventure_with(ev, 2)),
        (day == 1 || day == 7) ==> spec_event_plan(CopyKind::YiTian, ev, day) == then_shop(ev, adventure_with(ev, 1)),
        day == 8 ==> spec_event_plan(CopyKind::YiTian, ev, day) == then_shop(ev, adventure_with(ev, 3)),
        (day != 1 && day != 7 && day != 8) ==> spec_event_plan(CopyKind::YiTian, ev, day) == then_shop(
            ev,
            the_battle(ev) + adventure_with(ev, 1),
        ),
        (day == 1 || day == 6) ==> spec_event_plan(CopyKind::JueShi, ev, day) == then_shop(ev, adventure_with(ev, 1)),
        day == 3 ==> spec_event_plan(CopyKind::JueShi, ev, day) == then_shop(
            ev,
            match first_of_type_upto(ev, "1"@, ev.len() as int) {
                Some(a) => seq![Attempt::Event(a)],
                None => seq![],
            },
        ),
        day == 4 ==> spec_event_plan(CopyKind::JueShi, ev, day) == then_shop(
            ev,
            match first_of_type_upto(ev, "1"@, ev.len() as int) {
                Some(a) => seq![Attempt::AdventureTwice(a, 2)],
                None => seq![],
            },
        ),
        (day != 1 && day != 6 && day != 3 && day != 4) ==> spec_event_plan(CopyKind::JueShi, ev, day)
            == then_shop(ev, the_battle(ev)),
{
    let sh = first_of_type_upto(ev, "2"@, ev.len() as int);
    if let Some(s) = sh {
        let m1 = the_battle(ev) + adventure_with(ev, 2);
        assert(m1.push(Attempt::Event(s)) =~= m1 + seq![Attempt::Event(s)]);
        let m2 = adventure_with(ev, 1);
        assert(m2.push(Attempt::Event(s)) =~= m2 + seq![Attempt::Event(s)]);
        let m3 = adventure_with(ev, 3);
        assert(m3.push(Attempt::Event(s)) =~= m3 + seq![Attempt::Event(s)]);
        let m4 = the_battle(ev) + adventure_with(ev, 1);
        assert(m4.push(Attempt::Event(s)) =~= m4 + seq![Attempt::Event(s)]);
        let m5 = the_battle(ev);
        assert(m5.push(Attempt::Event(s)) =~= m5 + seq![Attempt::Event(s)]);
        let m6: Seq<Attempt> = match first_of_type_upto(ev, "1"@, ev.len() as int) {
            Some(a) => seq![Attempt::Event(a)],
            None => seq![],
        };
        assert(m6.push(Attempt::Event(s)) =~= m6 + seq![Attempt::Event(s)]);
        let m7: Seq<Attempt> = match first_of_type_upto(ev, "1"@, ev.len() as int) {
            Some(a) => seq![Attempt::AdventureTwice(a, 2)],
            None => seq![],
        };
        assert(m7.push(Attempt::Event(s)) =~= m7 + seq![Attempt::Event(s)]);
    }
}

/// On days 1 and 6 of 绝世 an adventure, when the day has one, is followed with option 1
/// before anything else, and no battle is fought.
pub proof fn law_jue_shi_follows_adventure(ev: Seq<EventList>, day: u32)
    requires
        day == 1 || day == 6,
        first_of_type_upto(ev, "1"@, ev.len() as int) is Some,
    ensures
        spec_event_plan(CopyKind::JueShi, ev, day)[0] == Attempt::Adventure(
            first_of_type_upto(ev, "1"@, ev.len() as int)->0,
            1,
        ),
        forall|i: int| 0 <= i < spec_event_plan(CopyKind::JueShi, ev, day).len() ==>
            !(#[trigger] spec_event_plan(CopyKind::JueShi, ev, day)[i] matches Attempt::Event(b) && spec_battle(ev)
                == Some(b) && first_of_type_upto(ev, "2"@, ev.len() as int) != Some(b)),
{
    law_day_plans(ev, day);
}

/// A good of the exchange shop as the server lists it.
#[derive(Debug, Clone)]
pub struct Goods {
    pub key_id: String,
    pub name: String,
    pub price: String,
    /// How many were exchanged already.
    pub num: String,
    /// How many can be exchanged in all.
    pub max_num: String,
}

/// A number field of a good.
#[derive(Debug, Clone, Copy, PartialEq, Eq, Structural)]
pub enum GoodsField {
    Num,
    MaxNum,
    Price,
}

/// One step of a visit to the exchange shop.
#[derive(Debug, Clone, Copy, PartialEq, Eq, Structural)]
pub enum ShopStep {
    /// Exchange the good at `index` `count` times.
    Exchange { index: usize, count: u32 },
    /// A field of the good at `index` is no number; the good is skipped.
    BadField { index: usize, field: GoodsField },
}

/// What a visit to the exchange shop does.
#[derive(Debug, Clone)]
pub enum ShopPlan {
    /// No good is configured: nothing to do.
    NothingWanted,
    /// The score is no number.
    BadScore,
    /// The score is under 500, the price of the cheapest good.
    ScoreTooLow,
    /// The steps, in the order of the goods.
    Steps(Vec<ShopStep>),
}

pub open spec fn spec_want(ex: ChangMengExchange, name: Seq<char>) -> Option<u32> {
    if name == "玄铁令"@ {
        Some(ex.xuan_tie_ling)
    } else if name == "淬火结晶"@ {
        Some(ex.cui_huo_jie_jing)
    } else if name == "石中剑"@ {
        Some(ex.shi_zhong_jian)
    } else if name == "大型武器符咒"@ {
        Some(ex.da_xing_wu_qi_fu_zhou)
    } else if name == "中型武器符咒"@ {
        Some(ex.zhong_xing_wu_qi_fu_zhou)
    } else if name == "小型武器符咒"@ {
        Some(ex.xiao_xing_wu_qi_fu_zhou)
    } else if name == "投掷武器符咒"@ {
        Some(ex.tou_zhi_wu_qi_fu_zhou)
    } else {
        None
    }
}

/// Each good of the exchange shop is wanted as often as the setting named after it says
/// (玄铁令 by `xuan_tie_ling`, 淬火结晶 by `cui_huo_jie_jing`, and so on for 石中剑 and the
/// four talismans), whatever the settings are; other goods are not configured.
pub proof fn law_want_follows_its_setting(ex: ChangMengExchange, name: Seq<char>)
    ensures
        spec_want(ex, "玄铁令"@) == Some(ex.xuan_tie_ling),
        spec_want(ex, "淬火结晶"@) == Some(ex.cui_huo_jie_jing),
        spec_want(ex, "石中剑"@) == Some(ex.shi_zhong_jian),
        spec_want(ex, "大型武器符咒"@) == Some(ex.da_xing_wu_qi_fu_zhou),
        spec_want(ex, "中型武器符咒"@) == Some(ex.zhong_xing_wu_qi_fu_zhou),
        spec_want(ex, "小型武器符咒"@) == Some(ex.xiao_xing_wu_qi_fu_zhou),
        spec_want(ex, "投掷武器符咒"@) == Some(ex.tou_zhi_wu_qi_fu_zhou),
        name != "玄铁令"@ && name != "淬火结晶"@ && name != "石中剑"@ && name != "大型武器符咒"@
            && name != "中型武器符咒"@ && name != "小型武器符咒"@ && name != "投掷武器符咒"@ ==> spec_want(ex, name)
            is None,
{
    reveal_strlit("玄铁令");
    reveal_strlit("淬火结晶");
    reveal_strlit("石中剑");
    reveal_strlit("大型武器符咒");
    reveal_strlit("中型武器符咒");
    reveal_strlit("小型武器符咒");
    reveal_strlit("投掷武器符咒");
    assert("玄铁令"@[0] != "石中剑"@[0]);
    assert("大型武器符咒"@[0] != "中型武器符咒"@[0] && "大型武器符咒"@[0] != "小型武器符咒"@[0]
        && "大型武器符咒"@[0] != "投掷武器符咒"@[0] && "中型武器符咒"@[0] != "小型武器符咒"@[0]
        && "中型武器符咒"@[0] != "投掷武器符咒"@[0] && "小型武器符咒"@[0] != "投掷武器符咒"@[0]);
    assert("玄铁令"@.len() == 3 && "石中剑"@.len() == 3 && "淬火结晶"@.len() == 4 && "大型武器符咒"@.len() == 6
        && "中型武器符咒"@.len() == 6 && "小型武器符咒"@.len() == 6 && "投掷武器符咒"@.len() == 6);
}

/// How many of the good named `name` are wanted; `None` for goods not configured.
pub fn want_of(ex: &ChangMengExchange, name: &str) -> (r: Option<u32>)
    ensures
        r == spec_want(*ex, name@),
{
    if str_eq(name, "玄铁令") {
        Some(ex.xuan_tie_ling)
    } else if str_eq(name, "淬火结晶") {
        Some(ex.cui_huo_jie_jing)
    } else if str_eq(name, "石中剑") {
        Some(ex.shi_zhong_jian)
    } else if str_eq(name, "大型武器符咒") {
        Some(ex.da_xing_wu_qi_fu_zhou)
    } else if str_eq(name, "中型武器符咒") {
        Some(ex.zhong_xing_wu_qi_fu_zhou)
    } else if str_eq(name, "小型武器符咒") {
        Some(ex.xiao_xing_wu_qi_fu_zhou)
    } else if str_eq(name, "投掷武器符咒") {
        Some(ex.tou_zhi_wu_qi_fu_zhou)
    } else {
        None
    }
}

/// The steps for the first `n` goods, starting from `score`, with the score left after them.
pub open spec fn shop_steps(ex: ChangMengExchange, goods: Seq<Goods>, n: int, score: u32) -> (Seq<ShopStep>, u32)
    decreases n,
{
    if n <= 0 {
        (seq![], score)
    } else {
        let (prev, s) = shop_steps(ex, goods, n - 1, score);
        let g = goods[n - 1];
        let idx = (n - 1) as usize;
        match spec_want(ex, g.name@) {
            None => (prev, s),
            Some(w) => if w == 0 {
                (prev, s)
            } else {
                match spec_parse_u32(g.num@) {
                    None => (prev.push(ShopStep::BadField { index: idx, field: GoodsField::Num }), s),
                    Some(num) => match spec_parse_u32(g.max_num@) {
                        None => (prev.push(ShopStep::BadField { index: idx, field: GoodsField::MaxNum }), s),
                        Some(mx) => match spec_parse_u32(g.price@) {
                            None => (prev.push(ShopStep::BadField { index: idx, field: GoodsField::Price }), s),
                            Some(p) => {
                                let m = spec_calc_max_exchange(w, mx, num, s, p);
                                if m == 0 {
                                    (prev, s)
                                } else {
                                    (prev.push(ShopStep::Exchange { index: idx, count: m }), (s - p * m) as u32)
                                }
                            },
                        },
                    },
                }
            },
        }
    }
}

/// What the exchanges among `steps` cost: for each, the price of its good times the count.
pub open spec fn steps_cost(goods: Seq<Goods>, steps: Seq<ShopStep>) -> int
    decreases steps.len(),
{
    if steps.len() == 0 {
        0
    } else {
        steps_cost(goods, steps.drop_last()) + match steps.last() {
            ShopStep::Exchange { index, count } => match spec_parse_u32(goods[index as int].price@) {
                Some(p) => p * count,
                None => 0,
            },
            _ => 0,
        }
    }
}

/// A visit spends exactly what its exchanges cost and never more than the score: the
/// score left is the score held less the price of every good bought. Each exchange is for
/// a good listed in the shop and configured, buys at least one, and with what was
/// exchanged before stays within both the configured amount and the shop's limit.
pub proof fn law_shop_spends_the_score(ex: ChangMengExchange, goods: Seq<Goods>, n: int, score: u32)
    requires
        0 <= n <= goods.len(),
        goods.len() <= usize::MAX,
    ensures
        steps_cost(goods, shop_steps(ex, goods, n, score).0) + shop_steps(ex, goods, n, score).1 == score,
        forall|k: int|
            0 <= k < shop_steps(ex, goods, n, score).0.len() ==> (#[trigger] shop_steps(ex, goods, n, score).0[k] matches ShopStep::Exchange {
                index,
                count,
            } ==> (index < n && count > 0 && (spec_want(ex, goods[index as int].name@) matches Some(w) && (
            spec_parse_u32(goods[index as int].num@) matches Some(num) && count + num <= w)))),
    decreases n,
{
    if n > 0 {
        law_shop_spends_the_score(ex, goods, n - 1, score);
        let (prev, s) = shop_steps(ex, goods, n - 1, score);
        let (cur, t) = shop_steps(ex, goods, n, score);
        let g = goods[n - 1];
        if cur != prev {
            assert(cur.drop_last() =~= prev);
            assert forall|k: int| 0 <= k < prev.len() implies #[trigger] cur[k] == prev[k] by {}
            if cur.last() is Exchange {
                let w = spec_want(ex, g.name@)->0;
                let num = spec_parse_u32(g.num@)->0;
                let mx = spec_parse_u32(g.max_num@)->0;
                let p = spec_parse_u32(g.price@)->0;
                let m = spec_calc_max_exchange(w, mx, num, s, p);
                law_exchange_within_limits(w, mx, num, s, p);
                assert(((n - 1) as usize) as int == n - 1);
                assert(cur.last() == ShopStep::Exchange { index: (n - 1) as usize, count: m });
                assert(steps_cost(goods, cur) == steps_cost(goods, prev) + p * m);
            }
        }
    }
}

/// A visit to the exchange shop: nothing when no good is configured; otherwise, with a
/// score of at least 500, each configured good in turn is exchanged as often as
/// `calc_max_exchange` allows, and its cost is taken from the score before the next good.
pub fn shop_plan(ex: &ChangMengExchange, score: &str, goods: &Vec<Goods>) -> (r: ShopPlan)
    ensures
        ex.all_zero() ==> r is NothingWanted,
        !ex.all_zero() && spec_parse_u32(score@) is None ==> r is BadScore,
        !ex.all_zero() && spec_parse_u32(score@) is Some && spec_parse_u32(score@)->0 < 500
            ==> r is ScoreTooLow,
        !ex.all_zero() && spec_parse_u32(score@) is Some && spec_parse_u32(score@)->0 >= 500
            ==> (r matches ShopPlan::Steps(v) && v@ == shop_steps(
            *ex,
            goods@,
            goods@.len() as int,
            spec_parse_u32(score@)->0,
        ).0),
{
    if ex.xuan_tie_ling == 0 && ex.cui_huo_jie_jing == 0 && ex.shi_zhong_jian == 0
        && ex.da_xing_wu_qi_fu_zhou == 0 && ex.zhong_xing_wu_qi_fu_zhou == 0
        && ex.xiao_xing_wu_qi_fu_zhou == 0 && ex.tou_zhi_wu_qi_fu_zhou == 0 {
        return ShopPlan::NothingWanted;
    }
    let score0 = match parse_u32(score) {
        Some(v) => v,
        None => return ShopPlan::BadScore,
    };
    if score0 < 500 {
        return ShopPlan::ScoreTooLow;
    }
    let mut steps: Vec<ShopStep> = Vec::new();
    let mut left: u32 = score0;
    let mut i: usize = 0;
    while i < goods.len()
        invariant
            i <= goods@.len(),
            shop_steps(*ex, goods@, i as int, score0) == (steps@, left),
        decreases goods@.len() - i,
    {
        let g = &goods[i];
        match want_of(ex, g.name.as_str()) {
            None => {},
            Some(w) => {
                if w != 0 {
                    match parse_u32(g.num.as_str()) {
                        None => steps.push(ShopStep::BadField { index: i, field: GoodsField::Num }),
                        Some(num) => match parse_u32(g.max_num.as_str()) {
                            None => steps.push(ShopStep::BadField { index: i, field: GoodsField::MaxNum }),
                            Some(mx) => match parse_u32(g.price.as_str()) {
                                None => steps.push(ShopStep::BadField { index: i, field: GoodsField::Price }),
                                Some(p) => {
                                    let m = calc_max_exchange(w, mx, num, left, p);
                                    if m != 0 {
                                        proof {
                                            law_exchange_within_limits(w, mx, num, left, p);
                                        }
                                        steps.push(ShopStep::Exchange { index: i, count: m });
                                        left = left - p * m;
                                    }
                                },
                            },
                        },
                    }
                }
            },
        }
        i = i + 1;
    }
    ShopPlan::Steps(steps)
}


/// The three instances are known by their names: 柒承的忙碌日常, 倚天屠龙归我心 and
/// 绝世秘籍之争; no other instance is run.
pub proof fn law_copy_kinds(name: Seq<char>)
    ensures
        spec_copy_kind("柒承的忙碌日常"@) == Some(CopyKind::QiCheng),
        spec_copy_kind("倚天屠龙归我心"@) == Some(CopyKind::YiTian),
        spec_copy_kind("绝世秘籍之争"@) == Some(CopyKind::JueShi),
        name != "柒承的忙碌日常"@ && name != "倚天屠龙归我心"@ && name != "绝世秘籍之争"@ ==> spec_copy_kind(name) is None,
{
    reveal_strlit("柒承的忙碌日常");
    reveal_strlit("倚天屠龙归我心");
    reveal_strlit("绝世秘籍之争");
    assert("柒承的忙碌日常"@[0] != "倚天屠龙归我心"@[0]);
    assert("柒承的忙碌日常"@.len() != "绝世秘籍之争"@.len() && "倚天屠龙归我心"@.len() != "绝世秘籍之争"@.len());
}

/// An instance runs once per incense burner, never more than the limit and never at all
/// with limit 0; one in progress (`"2"`) with no burner left is run once to end it.
pub proof fn law_run_counts(limit: u32, incense: u32, status: Seq<char>)
    ensures
        spec_run_count(limit, incense, status) <= limit,
        limit == 0 ==> spec_run_count(limit, incense, status) == 0,
        limit > 0 && incense > 0 ==> spec_run_count(limit, incense, status) == (if incense <= limit {
            incense
        } else {
            limit
        }),
        limit > 0 && incense == 0 ==> (spec_run_count(limit, incense, status) == 1 <==> status == "2"@),
        limit > 0 && incense == 0 && status != "2"@ ==> spec_run_count(limit, incense, status) == 0,
{
}

/// A day of an instance: a lost instance (`win` `"1"`) ends it; otherwise, past the last
/// day it is finished, on a day already chosen (`choose` `"1"`) or on day 0 it goes to the
/// next day, and on any other day the events of that day are played.
pub proof fn law_day_steps(win: Seq<char>, choose: Seq<char>, cur: Seq<char>, max: Seq<char>)
    ensures
        win == "1"@ ==> spec_day_step(win, choose, cur, max) == DayStep::Lost,
        win != "1"@ ==> match (spec_parse_u32(cur), spec_parse_u32(max)) {
            (None, _) => spec_day_step(win, choose, cur, max) == DayStep::BadCurDays,
            (Some(_), None) => spec_day_step(win, choose, cur, max) == DayStep::BadMaxDays,
            (Some(c), Some(m)) => {
                &&& (spec_day_step(win, choose, cur, max) == DayStep::Finished) <==> c > m
                &&& (spec_day_step(win, choose, cur, max) == DayStep::Events(c)) <==> (c <= m && c != 0 && choose != "1"@)
                &&& (spec_day_step(win, choose, cur, max) == DayStep::NextDay) <==> (c <= m && (c == 0 || choose == "1"@))
            },
        },
{
}

} // verus!
