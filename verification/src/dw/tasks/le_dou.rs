//! Fights with the friends' NPCs, the faction's NPCs, the companions' NPCs, the sworn
//! brothers' NPCs and with master, apprentices, spouse and brothers; skips whom was
//! fought already.
use vstd::prelude::*;

use crate::text::{parse_u32, spec_parse_u32, str_eq};

verus! {

/// The level an NPC of the friend list asks for; 0 for NPCs without a threshold.
pub open spec fn npc_min_level(uin: Seq<char>) -> u32 {
    if uin == "9"@ {
        20
    } else if uin == "11"@ {
        30
    } else if uin == "12"@ {
        40
    } else if uin == "16"@ {
        50
    } else if uin == "33"@ {
        60
    } else if uin == "155"@ {
        90
    } else if uin == "156"@ {
        100
    } else {
        0
    }
}

/// Whether an account of level `lilian` may fight the NPC `uin`: 乐斗剑君 (9) from level
/// 20, 月敏妹妹 (11) from 30, 俊猴王 (12) from 40, 乐斗程管 (16) from 50, 金毛鹅王 (33) from
/// 60, 一灯大师 (155) from 90, 黄药师 (156) from 100; any other NPC always.
pub fn npc_lv_ok(uin: &str, lilian: u32) -> (r: bool)
    ensures
        r == (lilian >= npc_min_level(uin@)),
{
    if str_eq(uin, "9") {
        lilian >= 20
    } else if str_eq(uin, "11") {
        lilian >= 30
    } else if str_eq(uin, "12") {
        lilian >= 40
    } else if str_eq(uin, "16") {
        lilian >= 50
    } else if str_eq(uin, "33") {
        lilian >= 60
    } else if str_eq(uin, "155") {
        lilian >= 90
    } else if str_eq(uin, "156") {
        lilian >= 100
    } else {
        true
    }
}

/// The account's level from its `lilian` field; 0 when it is no number.
pub fn account_level(lilian: &str) -> (r: u32)
    ensures
        r == (match spec_parse_u32(lilian@) {
            Some(v) => v,
            None => 0,
        }),
{
    match parse_u32(lilian) {
        Some(v) => v,
        None => 0,
    }
}

/// An entry of the friend list; NPCs come first, players carry a face id.
#[derive(Debug, Clone)]
pub struct FriendInfo {
    pub uin: String,
    /// `"1"` when the NPC can be fought.
    pub enable: String,
    pub faceid: Option<String>,
}

/// An entry of the faction's member list; the first is the guardian.
#[derive(Debug, Clone)]
pub struct MemberInfo {
    pub uin: String,
    /// `"1"` when the member can be fought.
    pub fight: String,
    pub faceid: Option<String>,
}

/// No player among the first `n` friends.
pub open spec fn no_friend_player_upto(info: Seq<FriendInfo>, n: int) -> bool {
    forall|j: int| 0 <= j < n ==> (#[trigger] info[j]).faceid is None
}

/// The friends among the first `n` to fight: the NPCs before the first player that are
/// enabled and whose level threshold the account meets.
pub open spec fn friend_targets_upto(info: Seq<FriendInfo>, lilian: u32, n: int) -> Seq<usize>
    decreases n,
{
    if n <= 0 {
        seq![]
    } else {
        let prev = friend_targets_upto(info, lilian, n - 1);
        let e = info[n - 1];
        if no_friend_player_upto(info, n) && e.enable@ == "1"@ && lilian >= npc_min_level(e.uin@) {
            prev.push((n - 1) as usize)
        } else {
            prev
        }
    }
}

/// The positions in the friend list of the NPCs to fight (see `friend_targets_upto`).
pub fn friend_targets(info: &Vec<FriendInfo>, lilian: u32) -> (r: Vec<usize>)
    ensures
        r@ == friend_targets_upto(info@, lilian, info@.len() as int),
{
    let mut out: Vec<usize> = Vec::new();
    let mut i: usize = 0;
    while i < info.len()
        invariant
            i <= info@.len(),
            no_friend_player_upto(info@, i as int),
            out@ == friend_targets_upto(info@, lilian, i as int),
        decreases info@.len() - i,
    {
        let e = &info[i];
        if e.faceid.is_some() {
            proof {
                lemma_friend_targets_stop(info@, lilian, i as int + 1, info@.len() as int);
            }
            return out;
        }
        if str_eq(e.enable.as_str(), "1") && npc_lv_ok(e.uin.as_str(), lilian) {
            out.push(i);
        }
        i = i + 1;
    }
    out
}

proof fn lemma_friend_targets_stop(info: Seq<FriendInfo>, lilian: u32, m: int, n: int)
    requires
        1 <= m <= n <= info.len(),
        info[m - 1].faceid is Some,
    ensures
        friend_targets_upto(info, lilian, n) == friend_targets_upto(info, lilian, m - 1),
    decreases n - m,
{
    if n > m {
        lemma_friend_targets_stop(info, lilian, m, n - 1);
        assert(!no_friend_player_upto(info, n));
    } else {
        assert(!no_friend_player_upto(info, n));
    }
}

/// No player among the members from 1 (past the guardian) to before `n`.
pub open spec fn no_member_player_upto(list: Seq<MemberInfo>, n: int) -> bool {
    forall|j: int| 1 <= j < n ==> (#[trigger] list[j]).faceid is None
}

/// The members among the first `n` to fight: past the guardian, before the first player,
/// those that can be fought.
pub open spec fn member_targets_upto(list: Seq<MemberInfo>, n: int) -> Seq<usize>
    decreases n,
{
    if n <= 1 {
        seq![]
    } else {
        let prev = member_targets_upto(list, n - 1);
        if no_member_player_upto(list, n) && list[n - 1].fight@ == "1"@ {
            prev.push((n - 1) as usize)
        } else {
            prev
        }
    }
}

/// The positions in the faction's member list of the NPCs to fight (see
/// `member_targets_upto`).
pub fn member_targets(list: &Vec<MemberInfo>) -> (r: Vec<usize>)
    ensures
        r@ == member_targets_upto(list@, list@.len() as int),
{
    let mut out: Vec<usize> = Vec::new();
    if list.len() == 0 {
        return out;
    }
    let mut i: usize = 1;
    while i < list.len()
        invariant
            1 <= i <= list@.len(),
            no_member_player_upto(list@, i as int),
            out@ == member_targets_upto(list@, i as int),
        decreases list@.len() - i,
    {
        let e = &list[i];
        if e.faceid.is_some() {
            proof {
                lemma_member_targets_stop(list@, i as int + 1, list@.len() as int);
            }
            return out;
        }
        if str_eq(e.fight.as_str(), "1") {
            out.push(i);
        }
        i = i + 1;
    }
    out
}

proof fn lemma_member_targets_stop(list: Seq<MemberInfo>, m: int, n: int)
    requires
        2 <= m <= n <= list.len(),
        list[m - 1].faceid is Some,
    ensures
        member_targets_upto(list, n) == member_targets_upto(list, m - 1),
    decreases n - m,
{
    if n > m {
        lemma_member_targets_stop(list, m, n - 1);
        assert(!no_member_player_upto(list, n));
    } else {
        assert(!no_member_player_upto(list, n));
    }
}

pub open spec fn spec_brother_npcs(brotherhood: Seq<char>) -> Seq<u8> {
    let b: u32 = match spec_parse_u32(brotherhood) {
        Some(v) => v,
        None => 0,
    };
    let base = seq![17u8];
    let with_robber = if b >= 800 { base.push(18u8) } else { base };
    if b >= 2500 { with_robber.push(153u8) } else { with_robber }
}

/// The sworn brothers' NPCs to visit: 17 always, the robber (18) from a brotherhood of
/// 800 and the thief saint (153) from 2500; a brotherhood that is no number counts as 0.
pub fn brother_npcs(brotherhood: &str) -> (r: Vec<u8>)
    ensures
        r@ == spec_brother_npcs(brotherhood@),
{
    let b = match parse_u32(brotherhood) {
        Some(v) => v,
        None => 0,
    };
    let mut npcs: Vec<u8> = Vec::new();
    npcs.push(17);
    if b >= 800 {
        npcs.push(18);
    }
    if b >= 2500 {
        npcs.push(153);
    }
    npcs
}

/// The companions' NPCs: 大色魔, 四姑娘 and 曾小三.
pub fn companion_npcs() -> (r: Vec<u8>)
    ensures
        r@ == seq![13u8, 15u8, 152u8],
{
    let mut v: Vec<u8> = Vec::new();
    v.push(13);
    v.push(15);
    v.push(152);
    v
}


/// The NPC level thresholds: 乐斗剑君 (9) from 20, 月敏妹妹 (11) from 30, 俊猴王 (12) from
/// 40, 乐斗程管 (16) from 50, 金毛鹅王 (33) from 60, 一灯大师 (155) from 90, 黄药师 (156) from
/// 100; every other NPC has none.
pub proof fn law_npc_thresholds(uin: Seq<char>)
    ensures
        npc_min_level("9"@) == 20,
        npc_min_level("11"@) == 30,
        npc_min_level("12"@) == 40,
        npc_min_level("16"@) == 50,
        npc_min_level("33"@) == 60,
        npc_min_level("155"@) == 90,
        npc_min_level("156"@) == 100,
        uin != "9"@ && uin != "11"@ && uin != "12"@ && uin != "16"@ && uin != "33"@ && uin != "155"@ && uin != "156"@
            ==> npc_min_level(uin) == 0,
{
    reveal_strlit("9");
    reveal_strlit("11");
    reveal_strlit("12");
    reveal_strlit("16");
    reveal_strlit("33");
    reveal_strlit("155");
    reveal_strlit("156");
    assert("11"@[1] != "12"@[1] && "11"@[1] != "16"@[1] && "12"@[1] != "16"@[1] && "11"@[0] != "33"@[0]
        && "12"@[0] != "33"@[0] && "16"@[0] != "33"@[0] && "155"@[2] != "156"@[2]);
    assert("9"@.len() == 1 && "11"@.len() == 2 && "12"@.len() == 2 && "16"@.len() == 2 && "33"@.len() == 2
        && "155"@.len() == 3 && "156"@.len() == 3);
}

/// The sworn brothers' NPCs grow with the brotherhood: 17 always first, the robber (18)
/// exactly from 800, the thief saint (153) exactly from 2500, always in that order.
pub proof fn law_brother_npcs(brotherhood: Seq<char>)
    ensures
        ({
            let b: int = match spec_parse_u32(brotherhood) {
                Some(v) => v as int,
                None => 0,
            };
            let r = spec_brother_npcs(brotherhood);
            &&& r[0] == 17
            &&& r.contains(18u8) <==> b >= 800
            &&& r.contains(153u8) <==> b >= 2500
            &&& r.len() == 1 + (if b >= 800 { 1int } else { 0 }) + (if b >= 2500 { 1int } else { 0 })
            &&& (b >= 2500 ==> r == seq![17u8, 18u8, 153u8])
        }),
{
    let r = spec_brother_npcs(brotherhood);
    let b: int = match spec_parse_u32(brotherhood) {
        Some(v) => v as int,
        None => 0,
    };
    if b >= 2500 {
        assert(r =~= seq![17u8, 18u8, 153u8]);
        assert(r[1] == 18u8 && r[2] == 153u8);
    } else if b >= 800 {
        assert(r =~= seq![17u8, 18u8]);
        assert(r[1] == 18u8);
        assert(!r.contains(153u8)) by {
            if r.contains(153u8) {
                let i = choose|i: int| 0 <= i < r.len() && r[i] == 153u8;
            }
        }
    } else {
        assert(r =~= seq![17u8]);
        assert(!r.contains(153u8)) by {
            if r.contains(153u8) {
                let i = choose|i: int| 0 <= i < r.len() && r[i] == 153u8;
            }
        }
        assert(!r.contains(18u8)) by {
            if r.contains(18u8) {
                let i = choose|i: int| 0 <= i < r.len() && r[i] == 18u8;
            }
        }
    }
}

/// Friend `j` is fought: no player up to it, enabled, and its level threshold met.
#[verifier::opaque]
spec fn friend_fought(info: Seq<FriendInfo>, lilian: u32, j: int) -> bool {
    no_friend_player_upto(info, j + 1) && info[j].enable@ == "1"@ && lilian >= npc_min_level(info[j].uin@)
}

/// Member `j` is fought: past the guardian, no player from the guardian on up to it, and
/// it can be fought.
#[verifier::opaque]
spec fn member_fought(list: Seq<MemberInfo>, j: int) -> bool {
    1 <= j && no_member_player_upto(list, j + 1) && list[j].fight@ == "1"@
}

proof fn lemma_push_contains(prev: Seq<usize>, x: usize, j: usize)
    ensures
        prev.push(x).contains(j) <==> (prev.contains(j) || j == x),
{
    let r = prev.push(x);
    if r.contains(j) {
        let k = choose|k: int| 0 <= k < r.len() && r[k] == j;
        if k < prev.len() {
            assert(prev[k] == r[k]);
        }
    }
    if prev.contains(j) {
        let k = choose|k: int| 0 <= k < prev.len() && prev[k] == j;
        assert(r[k] == prev[k]);
    }
    assert(r[prev.len() as int] == x);
}

proof fn lemma_friend_targets(info: Seq<FriendInfo>, lilian: u32, n: int)
    requires
        0 <= n <= info.len(),
        n <= usize::MAX,
    ensures
        forall|k: int|
            0 <= k < friend_targets_upto(info, lilian, n).len() ==> (#[trigger] friend_targets_upto(
                info,
                lilian,
                n,
            )[k]) < n,
        forall|j: int|
            0 <= j < n ==> (friend_targets_upto(info, lilian, n).contains(j as usize) <==> #[trigger] friend_fought(
                info,
                lilian,
                j,
            )),
    decreases n,
{
    if n > 0 {
        lemma_friend_targets(info, lilian, n - 1);
        let prev = friend_targets_upto(info, lilian, n - 1);
        let e = info[n - 1];
        assert(friend_fought(info, lilian, n - 1) == (no_friend_player_upto(info, n) && e.enable@ == "1"@ && lilian
            >= npc_min_level(e.uin@))) by {
            reveal(friend_fought);
        }
        assert forall|j: int| 0 <= j < n implies (friend_targets_upto(info, lilian, n).contains(j as usize)
            <==> #[trigger] friend_fought(info, lilian, j)) by {
            if friend_fought(info, lilian, n - 1) {
                lemma_push_contains(prev, (n - 1) as usize, j as usize);
            }
            if j == n - 1 && prev.contains(j as usize) {
                let k = choose|k: int| 0 <= k < prev.len() && prev[k] == j as usize;
                assert(prev[k] < n - 1);
            }
        }
        if friend_fought(info, lilian, n - 1) {
            assert forall|k: int| 0 <= k < friend_targets_upto(info, lilian, n).len() implies (
            #[trigger] friend_targets_upto(info, lilian, n)[k]) < n by {
                if k < prev.len() {
                    assert(friend_targets_upto(info, lilian, n)[k] == prev[k]);
                }
            }
        }
    }
}

/// The friends fought are exactly the enabled NPCs whose level threshold the account's
/// level meets and that come before the first player of the list; in the order of the
/// list.
pub proof fn law_friend_targets(info: Seq<FriendInfo>, lilian: u32)
    requires
        info.len() <= usize::MAX,
    ensures
        forall|j: int|
            0 <= j < info.len() ==> (friend_targets_upto(info, lilian, info.len() as int).contains(j as usize) <==> (
            (forall|i: int| 0 <= i <= j ==> (#[trigger] info[i]).faceid is None) && (#[trigger] info[j]).enable@
                == "1"@ && lilian >= npc_min_level(info[j].uin@))),
{
    let n = info.len() as int;
    lemma_friend_targets(info, lilian, n);
    assert forall|j: int| 0 <= j < n implies (friend_targets_upto(info, lilian, n).contains(j as usize) <==> (
    (forall|i: int| 0 <= i <= j ==> (#[trigger] info[i]).faceid is None) && (#[trigger] info[j]).enable@ == "1"@
        && lilian >= npc_min_level(info[j].uin@))) by {
        assert(friend_targets_upto(info, lilian, n).contains(j as usize) <==> friend_fought(info, lilian, j));
        assert(friend_fought(info, lilian, j) <==> (no_friend_player_upto(info, j + 1) && info[j].enable@ == "1"@
            && lilian >= npc_min_level(info[j].uin@))) by {
            reveal(friend_fought);
        }
        assert((forall|i: int| 0 <= i <= j ==> (#[trigger] info[i]).faceid is None) <==> no_friend_player_upto(
            info,
            j + 1,
        ));
    }
}

proof fn lemma_member_targets(list: Seq<MemberInfo>, n: int)
    requires
        0 <= n <= list.len(),
        n <= usize::MAX,
    ensures
        forall|k: int|
            0 <= k < member_targets_upto(list, n).len() ==> (#[trigger] member_targets_upto(list, n)[k]) < n,
        forall|j: int|
            0 <= j < n ==> (member_targets_upto(list, n).contains(j as usize) <==> #[trigger] member_fought(list, j)),
    decreases n,
{
    if n <= 1 {
        assert forall|j: int| 0 <= j < n implies !#[trigger] member_fought(list, j) by {
            reveal(member_fought);
        }
    } else {
        lemma_member_targets(list, n - 1);
        let prev = member_targets_upto(list, n - 1);
        assert(member_fought(list, n - 1) == (no_member_player_upto(list, n) && list[n - 1].fight@ == "1"@)) by {
            reveal(member_fought);
        }
        assert forall|j: int| 0 <= j < n implies (member_targets_upto(list, n).contains(j as usize)
            <==> #[trigger] member_fought(list, j)) by {
            if member_fought(list, n - 1) {
                lemma_push_contains(prev, (n - 1) as usize, j as usize);
            }
            if j == n - 1 && prev.contains(j as usize) {
                let k = choose|k: int| 0 <= k < prev.len() && prev[k] == j as usize;
                assert(prev[k] < n - 1);
            }
        }
        if member_fought(list, n - 1) {
            assert forall|k: int| 0 <= k < member_targets_upto(list, n).len() implies (
            #[trigger] member_targets_upto(list, n)[k]) < n by {
                if k < prev.len() {
                    assert(member_targets_upto(list, n)[k] == prev[k]);
                }
            }
        }
    }
}

proof fn lemma_no_member_player(list: Seq<MemberInfo>, j: int)
    ensures
        no_member_player_upto(list, j + 1) <==> forall|i: int| 1 <= i <= j ==> (#[trigger] list[i]).faceid is None,
{
}

/// The members fought are exactly those past the guardian (the first entry) that can be
/// fought and come before the first player after the guardian; in the order of the list.
#[verifier::rlimit(50)]
pub proof fn law_member_targets(list: Seq<MemberInfo>)
    requires
        list.len() <= usize::MAX,
    ensures
        forall|j: int|
            0 <= j < list.len() ==> (member_targets_upto(list, list.len() as int).contains(j as usize) <==> (1 <= j
                && (forall|i: int| 1 <= i <= j ==> (#[trigger] list[i]).faceid is None) && (
            #[trigger] list[j]).fight@ == "1"@)),
{
    let n = list.len() as int;
    lemma_member_targets(list, n);
    assert forall|j: int| 0 <= j < n implies (member_targets_upto(list, n).contains(j as usize) <==> (1 <= j && (
    forall|i: int| 1 <= i <= j ==> (#[trigger] list[i]).faceid is None) && (#[trigger] list[j]).fight@ == "1"@)) by {
        assert(member_targets_upto(list, n).contains(j as usize) <==> member_fought(list, j));
        assert(member_fought(list, j) <==> (1 <= j && no_member_player_upto(list, j + 1) && list[j].fight@
            == "1"@)) by {
            reveal(member_fought);
        }
        lemma_no_member_player(list, j);
    }
}

} // verus!
