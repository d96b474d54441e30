//! The fighting menu: orders every dish not ordered yet.
use vstd::prelude::*;

use crate::text::{from_char_range, str_eq, to_chars};
use crate::text_spec::{split_on, split_ranges};

verus! {

/// The dishes of the menu, in order.
pub open spec fn dishes() -> Seq<Seq<char>> {
    seq!["1"@, "2"@, "3"@, "4"@, "5"@]
}

/// A dish is ordered when it is one of the non-empty pieces of the comma-separated `gift`.
pub open spec fn ordered(gift: Seq<char>, dish: Seq<char>) -> bool {
    exists|i: int| 0 <= i < split_on(gift, ',').len() && split_on(gift, ',')[i].len() > 0
        && #[trigger] split_on(gift, ',')[i] == dish
}

/// The dishes among the first `n` not ordered yet.
pub open spec fn to_order_upto(gift: Seq<char>, n: int) -> Seq<Seq<char>>
    decreases n,
{
    if n <= 0 {
        seq![]
    } else {
        let prev = to_order_upto(gift, n - 1);
        if ordered(gift, dishes()[n - 1]) {
            prev
        } else {
            prev.push(dishes()[n - 1])
        }
    }
}

fn is_ordered(v: &Vec<char>, ranges: &Vec<(usize, usize)>, dish: &str) -> (r: bool)
    requires
        ranges@.len() == split_on(v@, ',').len(),
        forall|k: int|
            0 <= k < ranges@.len() ==> #[trigger] ranges@[k].0 <= ranges@[k].1 <= v@.len() && v@.subrange(
                ranges@[k].0 as int,
                ranges@[k].1 as int,
            ) == split_on(v@, ',')[k],
    ensures
        r == ordered(v@, dish@),
{
    let mut k: usize = 0;
    while k < ranges.len()
        invariant
            k <= ranges@.len(),
            ranges@.len() == split_on(v@, ',').len(),
            forall|j: int|
                0 <= j < ranges@.len() ==> #[trigger] ranges@[j].0 <= ranges@[j].1 <= v@.len() && v@.subrange(
                    ranges@[j].0 as int,
                    ranges@[j].1 as int,
                ) == split_on(v@, ',')[j],
            forall|j: int|
                0 <= j < k ==> !(split_on(v@, ',')[j].len() > 0 && #[trigger] split_on(v@, ',')[j] == dish@),
        decreases ranges@.len() - k,
    {
        let (a, b) = ranges[k];
        let piece = from_char_range(v, a, b);
        if a < b && str_eq(piece.as_str(), dish) {
            assert(split_on(v@, ',')[k as int] == dish@);
            return true;
        }
        k = k + 1;
    }
    false
}

/// The dishes to order: those of 1 to 5 that are not among the non-empty pieces of the
/// comma-separated `gift` field, in order.
pub fn dishes_to_order(gift: &str) -> (r: Vec<&'static str>)
    ensures
        r@.len() == to_order_upto(gift@, 5).len(),
        forall|i: int| 0 <= i < r@.len() ==> (#[trigger] r@[i])@ == to_order_upto(gift@, 5)[i],
{
    let v = to_chars(gift);
    let ranges = split_ranges(&v, ',');
    let all: [&'static str; 5] = ["1", "2", "3", "4", "5"];
    proof {
        assert(all@.map_values(|s: &'static str| s@) =~= dishes());
    }
    let mut out: Vec<&'static str> = Vec::new();
    let mut i: usize = 0;
    while i < 5
        invariant
            i <= 5,
            v@ == gift@,
            all@.map_values(|s: &'static str| s@) == dishes(),
            ranges@.len() == split_on(v@, ',').len(),
            forall|k: int|
                0 <= k < ranges@.len() ==> #[trigger] ranges@[k].0 <= ranges@[k].1 <= v@.len() && v@.subrange(
                    ranges@[k].0 as int,
                    ranges@[k].1 as int,
                ) == split_on(v@, ',')[k],
            out@.len() == to_order_upto(gift@, i as int).len(),
            forall|k: int| 0 <= k < out@.len() ==> (#[trigger] out@[k])@ == to_order_upto(gift@, i as int)[k],
        decreases 5 - i,
    {
        let dish = all[i];
        assert(dish@ == dishes()[i as int]);
        if !is_ordered(&v, &ranges, dish) {
            out.push(dish);
        }
        i = i + 1;
    }
    out
}

/// Dish `d` as one order: the dish when `gift` does not hold it yet, nothing otherwise.
pub open spec fn order_if_missing(gift: Seq<char>, d: Seq<char>) -> Seq<Seq<char>> {
    if ordered(gift, d) {
        seq![]
    } else {
        seq![d]
    }
}

/// The dishes ordered are those of 1, 2, 3, 4 and 5 that `gift` does not hold yet, in that
/// order.
pub proof fn law_dishes_ordered(gift: Seq<char>)
    ensures
        to_order_upto(gift, 5) == order_if_missing(gift, "1"@) + order_if_missing(gift, "2"@) + order_if_missing(
            gift,
            "3"@,
        ) + order_if_missing(gift, "4"@) + order_if_missing(gift, "5"@),
{
    let a = order_if_missing(gift, "1"@);
    let b = order_if_missing(gift, "2"@);
    let c = order_if_missing(gift, "3"@);
    let d = order_if_missing(gift, "4"@);
    let e = order_if_missing(gift, "5"@);
    assert(to_order_upto(gift, 0) =~= Seq::<Seq<char>>::empty());
    assert(to_order_upto(gift, 1) =~= a);
    assert(to_order_upto(gift, 2) =~= a + b);
    assert(to_order_upto(gift, 3) =~= a + b + c);
    assert(to_order_upto(gift, 4) =~= a + b + c + d);
    assert(to_order_upto(gift, 5) =~= a + b + c + d + e);
}

} // verus!
