//! The faction's chamber of commerce: claims the treasury gifts, makes the trades that are
//! switched on and exchanges the listed goods.
use vstd::prelude::*;

use crate::common::config::{DuiHuanShangDian, JiaoYiHuiSuo};
use crate::text::{from_char_range, owned, seq_contains, str_eq, to_chars};
use crate::text_spec::{lemma_positions_where, lemma_split_on_nonempty, positions_where, split_on, split_ranges};

verus! {

/// A trade offered by the trading house.
#[derive(Debug, Clone)]
pub struct TradeInfo {
    pub tips: String,
    pub goods_id: String,
    /// `"1"` once traded.
    pub is_traded: String,
    pub t: String,
}

/// Whether `tips` asks for a trade that is switched on (what `JiaoYiHuiSuo::is_match`
/// answers).
pub open spec fn trade_wanted(h: JiaoYiHuiSuo, tips: Seq<char>) -> bool {
    exists|i: int| 0 <= i < 23 && (#[trigger] h.spec_items()[i]).1 && seq_contains(tips, h.spec_items()[i].0@)
}

/// The trades among the first `n` to make: not traded yet and switched on.
pub open spec fn trades_upto(h: JiaoYiHuiSuo, infos: Seq<TradeInfo>, n: int) -> Seq<usize>
    decreases n,
{
    if n <= 0 {
        seq![]
    } else {
        let prev = trades_upto(h, infos, n - 1);
        let t = infos[n - 1];
        if t.is_traded@ != "1"@ && trade_wanted(h, t.tips@) {
            prev.push((n - 1) as usize)
        } else {
            prev
        }
    }
}

/// The positions of the trades to make (see `trades_upto`).
pub fn trades_to_make(h: &JiaoYiHuiSuo, infos: &Vec<TradeInfo>) -> (r: Vec<usize>)
    ensures
        r@ == trades_upto(*h, infos@, infos@.len() as int),
{
    let mut out: Vec<usize> = Vec::new();
    let mut i: usize = 0;
    while i < infos.len()
        invariant
            i <= infos@.len(),
            out@ == trades_upto(*h, infos@, i as int),
        decreases infos@.len() - i,
    {
        let t = &infos[i];
        if !str_eq(t.is_traded.as_str(), "1") && h.is_match(t.tips.as_str()) {
            out.push(i);
        }
        i = i + 1;
    }
    out
}

/// The good a trade asks for, as logged: the text after the first `要` up to the next
/// `，`; the whole tips when there is no `要`.
pub open spec fn spec_trade_item(tips: Seq<char>) -> Seq<char> {
    let parts = split_on(tips, '要');
    if parts.len() >= 2 {
        split_on(parts[1], '，')[0]
    } else {
        tips
    }
}

/// The good a trade asks for (see `spec_trade_item`).
pub fn trade_item(tips: &str) -> (r: String)
    ensures
        r@ == spec_trade_item(tips@),
{
    let v = to_chars(tips);
    let ranges = split_ranges(&v, '要');
    if ranges.len() >= 2 {
        let (a, b) = ranges[1];
        let piece = from_char_range(&v, a, b);
        let pv = to_chars(piece.as_str());
        let inner = split_ranges(&pv, '，');
        proof {
            lemma_split_on_nonempty(pv@, '，');
        }
        let (c, d) = inner[0];
        from_char_range(&pv, c, d)
    } else {
        owned(tips)
    }
}

/// A good of the exchange shop.
#[derive(Debug, Clone)]
pub struct ExchangeInfo {
    pub type_id: String,
    pub goods_name: String,
    /// `"1"` once exchanged.
    pub is_exchanged: String,
}

/// Whether the good is on the exchange list (what `DuiHuanShangDian::should_exchange`
/// answers).
pub open spec fn good_listed(shop: DuiHuanShangDian, name: Seq<char>) -> bool {
    exists|i: int| 0 <= i < shop.0@.len() && (#[trigger] shop.0@[i])@ == name
}

/// The goods among the first `n` to exchange: not exchanged yet and listed.
pub open spec fn exchanges_upto(shop: DuiHuanShangDian, infos: Seq<ExchangeInfo>, n: int) -> Seq<usize>
    decreases n,
{
    if n <= 0 {
        seq![]
    } else {
        let prev = exchanges_upto(shop, infos, n - 1);
        let e = infos[n - 1];
        if e.is_exchanged@ != "1"@ && good_listed(shop, e.goods_name@) {
            prev.push((n - 1) as usize)
        } else {
            prev
        }
    }
}

/// The positions of the goods to exchange (see `exchanges_upto`).
pub fn exchanges_to_make(shop: &DuiHuanShangDian, infos: &Vec<ExchangeInfo>) -> (r: Vec<usize>)
    ensures
        r@ == exchanges_upto(*shop, infos@, infos@.len() as int),
{
    let mut out: Vec<usize> = Vec::new();
    let mut i: usize = 0;
    while i < infos.len()
        invariant
            i <= infos@.len(),
            out@ == exchanges_upto(*shop, infos@, i as int),
        decreases infos@.len() - i,
    {
        let e = &infos[i];
        if !str_eq(e.is_exchanged.as_str(), "1") && shop.should_exchange(e.goods_name.as_str()) {
            out.push(i);
        }
        i = i + 1;
    }
    out
}

proof fn lemma_trades_are_positions(list: Seq<TradeInfo>, h: JiaoYiHuiSuo, n: int)
    ensures
        trades_upto(h, list, n) == positions_where(
            list,
            |x: TradeInfo| x.is_traded@ != "1"@ && trade_wanted(h, x.tips@),
            n,
        ),
    decreases n,
{
    if n > 0 {
        lemma_trades_are_positions(list, h, n - 1);
    }
}

/// The trades made are exactly those not made yet whose goods are wanted, in the order of
/// the list.
pub proof fn law_trades(list: Seq<TradeInfo>, h: JiaoYiHuiSuo)
    requires
        list.len() <= usize::MAX,
    ensures
        forall|j: int| 0 <= j < list.len() ==> (trades_upto(h, list, list.len() as int).contains(j as usize) <==> (
            (#[trigger] list[j]).is_traded@ != "1"@ && trade_wanted(h, list[j].tips@))),
        forall|k: int, l: int|
            0 <= k < l < trades_upto(h, list, list.len() as int).len() ==> #[trigger]
                trades_upto(h, list, list.len() as int)[k]
                < #[trigger] trades_upto(h, list, list.len() as int)[l],
{
    let n = list.len() as int;
    lemma_trades_are_positions(list, h, n);
    lemma_positions_where(list, |x: TradeInfo| x.is_traded@ != "1"@ && trade_wanted(h, x.tips@), n);
}

proof fn lemma_exchanges_are_positions(list: Seq<ExchangeInfo>, shop: DuiHuanShangDian, n: int)
    ensures
        exchanges_upto(shop, list, n) == positions_where(
            list,
            |x: ExchangeInfo| x.is_exchanged@ != "1"@ && good_listed(shop, x.goods_name@),
            n,
        ),
    decreases n,
{
    if n > 0 {
        lemma_exchanges_are_positions(list, shop, n - 1);
    }
}

/// The exchanges made are exactly those not made yet whose goods are listed, in the order
/// of the list.
pub proof fn law_exchanges(list: Seq<ExchangeInfo>, shop: DuiHuanShangDian)
    requires
        list.len() <= usize::MAX,
    ensures
        forall|j: int| 0 <= j < list.len() ==> (exchanges_upto(shop, list, list.len() as int).contains(j as usize) <==> (
            (#[trigger] list[j]).is_exchanged@ != "1"@ && good_listed(shop, list[j].goods_name@))),
        forall|k: int, l: int|
            0 <= k < l < exchanges_upto(shop, list, list.len() as int).len() ==> #[trigger]
                exchanges_upto(shop, list, list.len() as int)[k]
                < #[trigger] exchanges_upto(shop, list, list.len() as int)[l],
{
    let n = list.len() as int;
    lemma_exchanges_are_positions(list, shop, n);
    lemma_positions_where(list, |x: ExchangeInfo| x.is_exchanged@ != "1"@ && good_listed(shop, x.goods_name@), n);
}

} // verus!
