//! Heroes come forth: claims the sign-in gifts and both battle passes.
use vstd::prelude::*;

use crate::text_spec::{lemma_positions_where, positions_where};

verus! {

/// The gifts among the first `n` not yet claimed (status 0), by id.
pub open spec fn unclaimed_upto(list: Seq<(u8, u8)>, n: int) -> Seq<u8>
    decreases n,
{
    if n <= 0 {
        seq![]
    } else {
        let prev = unclaimed_upto(list, n - 1);
        if list[n - 1].1 == 0 {
            prev.push(list[n - 1].0)
        } else {
            prev
        }
    }
}

/// The ids of the gifts to claim from a list of `(gift id, status)`: those with status 0.
pub fn unclaimed_gifts(list: &Vec<(u8, u8)>) -> (r: Vec<u8>)
    ensures
        r@ == unclaimed_upto(list@, list@.len() as int),
{
    let mut out: Vec<u8> = Vec::new();
    let mut i: usize = 0;
    while i < list.len()
        invariant
            i <= list@.len(),
            out@ == unclaimed_upto(list@, i as int),
        decreases list@.len() - i,
    {
        let (id, status) = list[i];
        if status == 0 {
            out.push(id);
        }
        i = i + 1;
    }
    out
}

proof fn lemma_unclaimed_are_ids(list: Seq<(u8, u8)>, n: int)
    requires
        0 <= n <= list.len(),
        n <= usize::MAX,
    ensures
        unclaimed_upto(list, n) == positions_where(list, |g: (u8, u8)| g.1 == 0, n).map_values(
            |i: usize| list[i as int].0,
        ),
    decreases n,
{
    if n > 0 {
        lemma_unclaimed_are_ids(list, n - 1);
        let prev = positions_where(list, |g: (u8, u8)| g.1 == 0, n - 1);
        let f = |i: usize| list[i as int].0;
        assert(prev.push((n - 1) as usize).map_values(f) =~= prev.map_values(f).push(list[n - 1].0));
    }
}

/// The gifts claimed are those of status 0, each by its id, in the order of the list: the
/// `k`-th claim is the id of the `k`-th gift of status 0.
pub proof fn law_unclaimed_gifts(list: Seq<(u8, u8)>)
    requires
        list.len() <= usize::MAX,
    ensures
        unclaimed_upto(list, list.len() as int).len() == positions_where(
            list,
            |g: (u8, u8)| g.1 == 0,
            list.len() as int,
        ).len(),
        forall|k: int|
            0 <= k < unclaimed_upto(list, list.len() as int).len() ==> #[trigger] unclaimed_upto(
                list,
                list.len() as int,
            )[k] == list[positions_where(list, |g: (u8, u8)| g.1 == 0, list.len() as int)[k] as int].0,
        forall|j: int|
            0 <= j < list.len() ==> (positions_where(list, |g: (u8, u8)| g.1 == 0, list.len() as int).contains(
                j as usize,
            ) <==> (#[trigger] list[j]).1 == 0),
{
    lemma_unclaimed_are_ids(list, list.len() as int);
    lemma_positions_where(list, |g: (u8, u8)| g.1 == 0, list.len() as int);
}

} // verus!
