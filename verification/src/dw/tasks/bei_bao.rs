//! The bag: uses the pouches and opens the items whose name ends in 宝箱 or 食盒.
use vstd::prelude::*;

use crate::text_spec::{lemma_positions_where, positions_where};

use crate::text::{is_suffix, parse_u32, spec_parse_u32, str_ends_with, str_eq};

verus! {

/// An item of the bag.
#[derive(Debug, Clone)]
pub struct BagItem {
    pub id: String,
    pub name: String,
    pub num: String,
    /// The category; `"5"` holds the pouches.
    pub storage: String,
}

/// The pouches among the first `n` items.
pub open spec fn pouches_upto(bag: Seq<BagItem>, n: int) -> Seq<usize>
    decreases n,
{
    if n <= 0 {
        seq![]
    } else {
        let prev = pouches_upto(bag, n - 1);
        if bag[n - 1].storage@ == "5"@ {
            prev.push((n - 1) as usize)
        } else {
            prev
        }
    }
}

/// The positions of the pouches (category `"5"`).
pub fn pouches(bag: &Vec<BagItem>) -> (r: Vec<usize>)
    ensures
        r@ == pouches_upto(bag@, bag@.len() as int),
{
    let mut out: Vec<usize> = Vec::new();
    let mut i: usize = 0;
    while i < bag.len()
        invariant
            i <= bag@.len(),
            out@ == pouches_upto(bag@, i as int),
        decreases bag@.len() - i,
    {
        if str_eq(bag[i].storage.as_str(), "5") {
            out.push(i);
        }
        i = i + 1;
    }
    out
}

/// An item to open: its name ends in 宝箱 (chest) or 食盒 (food box).
pub open spec fn is_box(name: Seq<char>) -> bool {
    is_suffix("宝箱"@, name) || is_suffix("食盒"@, name)
}

/// The boxes among the first `n` items.
pub open spec fn boxes_upto(bag: Seq<BagItem>, n: int) -> Seq<usize>
    decreases n,
{
    if n <= 0 {
        seq![]
    } else {
        let prev = boxes_upto(bag, n - 1);
        if is_box(bag[n - 1].name@) {
            prev.push((n - 1) as usize)
        } else {
            prev
        }
    }
}

/// The positions of the chests and food boxes.
pub fn boxes(bag: &Vec<BagItem>) -> (r: Vec<usize>)
    ensures
        r@ == boxes_upto(bag@, bag@.len() as int),
{
    let mut out: Vec<usize> = Vec::new();
    let mut i: usize = 0;
    while i < bag.len()
        invariant
            i <= bag@.len(),
            out@ == boxes_upto(bag@, i as int),
        decreases bag@.len() - i,
    {
        let name = bag[i].name.as_str();
        if str_ends_with(name, "宝箱") || str_ends_with(name, "食盒") {
            out.push(i);
        }
        i = i + 1;
    }
    out
}

/// How many times to use an item: its count as a `u32`; `None` when it is no number.
pub fn use_count(num: &str) -> (r: Option<u32>)
    ensures
        r == spec_parse_u32(num@),
{
    parse_u32(num)
}


proof fn lemma_pouches_are_positions(bag: Seq<BagItem>, n: int)
    ensures
        pouches_upto(bag, n) == positions_where(bag, |b: BagItem| b.storage@ == "5"@, n),
    decreases n,
{
    if n > 0 {
        lemma_pouches_are_positions(bag, n - 1);
    }
}

proof fn lemma_boxes_are_positions(bag: Seq<BagItem>, n: int)
    ensures
        boxes_upto(bag, n) == positions_where(
            bag,
            |b: BagItem| is_suffix("宝箱"@, b.name@) || is_suffix("食盒"@, b.name@),
            n,
        ),
    decreases n,
{
    if n > 0 {
        lemma_boxes_are_positions(bag, n - 1);
    }
}

/// The pouches used are exactly the items of category `"5"`, and the boxes opened exactly
/// the items whose name ends in 宝箱 or 食盒, each in the order of the bag.
pub proof fn law_what_is_used(bag: Seq<BagItem>)
    requires
        bag.len() <= usize::MAX,
    ensures
        forall|j: int| 0 <= j < bag.len() ==> (pouches_upto(bag, bag.len() as int).contains(j as usize) <==> (
            #[trigger] bag[j]).storage@ == "5"@),
        forall|j: int| 0 <= j < bag.len() ==> (boxes_upto(bag, bag.len() as int).contains(j as usize) <==> (
            is_suffix("宝箱"@, (#[trigger] bag[j]).name@) || is_suffix("食盒"@, bag[j].name@))),
        forall|k: int, l: int|
            0 <= k < l < pouches_upto(bag, bag.len() as int).len() ==> #[trigger]
                pouches_upto(bag, bag.len() as int)[k]
                < #[trigger] pouches_upto(bag, bag.len() as int)[l],
{
    let n = bag.len() as int;
    lemma_pouches_are_positions(bag, n);
    lemma_boxes_are_positions(bag, n);
    lemma_positions_where(bag, |b: BagItem| b.storage@ == "5"@, n);
    lemma_positions_where(bag, |b: BagItem| is_suffix("宝箱"@, b.name@) || is_suffix("食盒"@, b.name@), n);
}

} // verus!
