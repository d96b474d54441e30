//! Today's liveness: claims the personal liveness gifts and the faction's total
//! liveness gift.
use vstd::prelude::*;
use vstd::string::StringSliceAdditionalSpecFns;

use crate::text::{from_char_range, parse_u32, spec_parse_u32, to_chars};
use crate::text_spec::{lemma_split_on_nonempty, split_on, split_ranges};

verus! {

/// The liveness gifts: id and the liveness it needs.
pub open spec fn gift_table() -> Seq<(u8, u32)> {
    seq![(1u8, 20u32), (2u8, 50u32), (3u8, 80u32), (4u8, 115u32)]
}

/// Today's liveness: the part before the first `/` (the field reads `"80/40"` in a
/// faction, `"80"` outside), as a `u32`.
pub open spec fn spec_parse_liveness(s: Seq<char>) -> Option<u32> {
    spec_parse_u32(split_on(s, '/')[0])
}

/// Today's liveness from the `liveness` field (see `spec_parse_liveness`).
pub fn parse_liveness(s: &str) -> (r: Option<u32>)
    ensures
        r == spec_parse_liveness(s@),
{
    let v = to_chars(s);
    let ranges = split_ranges(&v, '/');
    proof {
        lemma_split_on_nonempty(v@, '/');
    }
    let (a, b) = ranges[0];
    let first = from_char_range(&v, a, b);
    parse_u32(first.as_str())
}

/// Whether gift `g` can be claimed: the liveness suffices and its mark byte is `'0'`.
pub open spec fn gift_open(liveness: u32, mark: Seq<u8>, g: (u8, u32)) -> bool {
    liveness >= g.1 && (g.0 as int) < mark.len() && mark[g.0 as int] == 48u8
}

/// The claimable ids among the first `n` gifts of the table.
pub open spec fn claimable_upto(liveness: u32, mark: Seq<u8>, n: int) -> Seq<u8>
    decreases n,
{
    if n <= 0 {
        seq![]
    } else {
        let prev = claimable_upto(liveness, mark, n - 1);
        let g = gift_table()[n - 1];
        if gift_open(liveness, mark, g) {
            prev.push(g.0)
        } else {
            prev
        }
    }
}

/// The gifts to claim, in the order of the table: none unless the marks are exactly 32
/// bytes long.
pub open spec fn spec_claimable_gifts(liveness: u32, mark: Seq<u8>) -> Seq<u8> {
    if mark.len() != 32 {
        seq![]
    } else {
        claimable_upto(liveness, mark, 4)
    }
}

/// The ids of the gifts that can be claimed: the liveness reaches what the gift needs and
/// the byte of the 32-byte claim marks at the gift's id is `'0'` (not yet claimed).
pub fn find_claimable_gifts(liveness: u32, giftmarkseq: &str) -> (r: Vec<u8>)
    ensures
        r@ == spec_claimable_gifts(liveness, giftmarkseq.spec_bytes()),
{
    let mut out: Vec<u8> = Vec::new();
    let mark = giftmarkseq.as_bytes();
    if mark.len() != 32 {
        return out;
    }
    let table: [(u8, u32); 4] = [(1, 20), (2, 50), (3, 80), (4, 115)];
    assert(table@ =~= gift_table());
    let mut i: usize = 0;
    while i < 4
        invariant
            i <= 4,
            table@ == gift_table(),
            mark@ == giftmarkseq.spec_bytes(),
            mark@.len() == 32,
            out@ == claimable_upto(liveness, mark@, i as int),
        decreases 4 - i,
    {
        let (id, need) = table[i];
        let idx = id as usize;
        if liveness >= need && idx < mark.len() && mark[idx] == 48u8 {
            out.push(id);
        }
        i = i + 1;
    }
    out
}

/// What a run of the task does with the liveness page.
#[derive(Debug, Clone)]
pub enum LivenessPlan {
    /// The claim marks are not 32 bytes long: stop.
    BadMarks,
    /// The liveness field cannot be read: stop.
    BadLiveness,
    /// Claim these gifts, then the faction's gift when `faction` holds.
    Claim { gifts: Vec<u8>, faction: bool },
}

/// The plan for the liveness page: the personal gifts that are open; the faction's gift
/// only after some personal gift was claimed and when the account is in a faction (its
/// faction liveness field is not empty).
pub fn liveness_plan(liveness: &str, fac_liveness: &str, giftmarkseq: &str) -> (r: LivenessPlan)
    ensures
        giftmarkseq.spec_bytes().len() != 32 ==> r is BadMarks,
        giftmarkseq.spec_bytes().len() == 32 && spec_parse_liveness(liveness@) is None
            ==> r is BadLiveness,
        giftmarkseq.spec_bytes().len() == 32 && spec_parse_liveness(liveness@) is Some ==> (
        r matches LivenessPlan::Claim { gifts, faction } && gifts@ == spec_claimable_gifts(
            spec_parse_liveness(liveness@)->0,
            giftmarkseq.spec_bytes(),
        ) && faction == (gifts@.len() > 0 && fac_liveness@.len() > 0)),
{
    if giftmarkseq.as_bytes().len() != 32 {
        return LivenessPlan::BadMarks;
    }
    let value = match parse_liveness(liveness) {
        Some(v) => v,
        None => return LivenessPlan::BadLiveness,
    };
    let gifts = find_claimable_gifts(value, giftmarkseq);
    let faction = gifts.len() > 0 && !fac_liveness.is_empty();
    LivenessPlan::Claim { gifts, faction }
}

/// Gift `id` as one claim: the gift when `open` holds, nothing otherwise.
pub open spec fn gift_if(open: bool, id: u8) -> Seq<u8> {
    if open {
        seq![id]
    } else {
        seq![]
    }
}

/// With 32 claim marks, gift 1 is claimed from liveness 20 on, gift 2 from 50, gift 3 from
/// 80 and gift 4 from 115, each only while the mark byte at its id is `'0'`; the gifts
/// come in the order of their ids and nothing else is claimed. With marks of another
/// length nothing is claimed.
pub proof fn law_liveness_gifts(liveness: u32, mark: Seq<u8>)
    ensures
        mark.len() == 32 ==> spec_claimable_gifts(liveness, mark) == gift_if(liveness >= 20 && mark[1] == 48u8, 1)
            + gift_if(liveness >= 50 && mark[2] == 48u8, 2) + gift_if(liveness >= 80 && mark[3] == 48u8, 3)
            + gift_if(liveness >= 115 && mark[4] == 48u8, 4),
        mark.len() != 32 ==> spec_claimable_gifts(liveness, mark) == Seq::<u8>::empty(),
{
    if mark.len() == 32 {
        let a = gift_if(liveness >= 20 && mark[1] == 48u8, 1);
        let b = gift_if(liveness >= 50 && mark[2] == 48u8, 2);
        let c = gift_if(liveness >= 80 && mark[3] == 48u8, 3);
        let d = gift_if(liveness >= 115 && mark[4] == 48u8, 4);
        assert(claimable_upto(liveness, mark, 0) =~= Seq::<u8>::empty());
        assert(claimable_upto(liveness, mark, 1) =~= a);
        assert(claimable_upto(liveness, mark, 2) =~= a + b);
        assert(claimable_upto(liveness, mark, 3) =~= a + b + c);
        assert(claimable_upto(liveness, mark, 4) =~= a + b + c + d);
    }
}

} // verus!
