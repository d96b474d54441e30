//! The sect: lights the incense burners of 万年寺, trains at 八叶堂 against the wooden
//! dummy and against fellow disciples, and does and completes the tasks of 五花堂.
use vstd::prelude::*;
use crate::text_spec::{lemma_positions_where, positions_where};

use crate::text::str_eq;

verus! {

pub open spec fn spec_sparring_count(times: Seq<char>, is_paid: bool) -> Option<u8> {
    if times == "0"@ {
        if is_paid { Some(2) } else { Some(1) }
    } else if times == "1"@ && is_paid {
        Some(1)
    } else {
        None
    }
}

/// How many sparrings with fellow disciples to start, from the count already done today
/// and whether paid sparring is on: `"0"` unpaid gives 1, `"0"` paid gives 2, `"1"` paid
/// gives 1, anything else none.
pub fn calc_sparring_count(times: &str, is_paid: bool) -> (r: Option<u8>)
    ensures
        r == spec_sparring_count(times@, is_paid),
{
    if str_eq(times, "0") {
        if is_paid {
            Some(2)
        } else {
            Some(1)
        }
    } else if str_eq(times, "1") && is_paid {
        Some(1)
    } else {
        None
    }
}

/// Which burners of 万年寺 to light: the common one when its free lighting is left, the
/// high incense one when its paid lighting is left and paid lighting is on.
pub fn incense_plan(left_free: &str, left_paid: &str, paid_on: bool) -> (r: (bool, bool))
    ensures
        r.0 == (left_free@ == "1"@),
        r.1 == (left_paid@ == "1"@ && paid_on),
{
    (str_eq(left_free, "1"), str_eq(left_paid, "1") && paid_on)
}

/// What a task of 五花堂 asks for.
#[derive(Debug, Clone, Copy)]
pub enum SectAction {
    /// Open the page with this command.
    Look(&'static str),
    /// Spar with the council member of this rank.
    Spar(&'static str),
    /// Look at the profile of a member of the own sect.
    ViewSameSect,
    /// Look at the profile of a member of another sect.
    ViewOtherSect,
    /// Train a heart technique once.
    Cultivate,
}

pub open spec fn spec_sect_action(desc: Seq<char>) -> Option<SectAction> {
    if desc == "进入华藏寺看一看"@ {
        Some(SectAction::Look("cmd=sect_art"))
    } else if desc == "进入伏虎寺看一看"@ {
        Some(SectAction::Look("cmd=sect_trump"))
    } else if desc == "进入金顶看一看"@ {
        Some(SectAction::Look("cmd=sect&op=showcouncil"))
    } else if desc == "进入八叶堂看一看"@ {
        Some(SectAction::Look("cmd=sect&op=showtraining"))
    } else if desc == "进入万年寺看一看"@ {
        Some(SectAction::Look("cmd=sect&op=showincense"))
    } else if desc == "与掌门人进行一次武艺切磋"@ {
        Some(SectAction::Spar("1"))
    } else if desc == "与首座进行一次武艺切磋"@ {
        Some(SectAction::Spar("2"))
    } else if desc == "与堂主进行一次武艺切磋"@ {
        Some(SectAction::Spar("3"))
    } else if desc == "查看一名同门成员的资料"@ {
        Some(SectAction::ViewSameSect)
    } else if desc == "查看一名其他门派成员的资料"@ {
        Some(SectAction::ViewOtherSect)
    } else if desc == "进行一次心法修炼"@ {
        Some(SectAction::Cultivate)
    } else {
        None
    }
}

/// The sparring tasks name a council member; the sparring goes to that member's rank:
/// the sect leader (掌门人) is rank 1, the first seat (首座) rank 2, the hall master (堂主)
/// rank 3. Over every description, a sparring action has rank 1, 2 or 3 exactly for the
/// task that names the member of that rank, so no two tasks share a rank.
pub proof fn law_spar_ranks(desc: Seq<char>)
    ensures
        spec_sect_action("与掌门人进行一次武艺切磋"@) matches Some(SectAction::Spar(r)) && r@ == "1"@,
        spec_sect_action("与首座进行一次武艺切磋"@) matches Some(SectAction::Spar(r)) && r@ == "2"@,
        spec_sect_action("与堂主进行一次武艺切磋"@) matches Some(SectAction::Spar(r)) && r@ == "3"@,
        spec_sect_action(desc) matches Some(SectAction::Spar(r)) ==> {
            &&& (r@ == "1"@ <==> desc == "与掌门人进行一次武艺切磋"@)
            &&& (r@ == "2"@ <==> desc == "与首座进行一次武艺切磋"@)
            &&& (r@ == "3"@ <==> desc == "与堂主进行一次武艺切磋"@)
        },
{
    reveal_strlit("进入华藏寺看一看");
    reveal_strlit("进入伏虎寺看一看");
    reveal_strlit("进入金顶看一看");
    reveal_strlit("进入八叶堂看一看");
    reveal_strlit("进入万年寺看一看");
    reveal_strlit("与掌门人进行一次武艺切磋");
    reveal_strlit("与首座进行一次武艺切磋");
    reveal_strlit("与堂主进行一次武艺切磋");
    reveal_strlit("1");
    reveal_strlit("2");
    reveal_strlit("3");
    let a = "与掌门人进行一次武艺切磋"@;
    let b = "与首座进行一次武艺切磋"@;
    let c = "与堂主进行一次武艺切磋"@;
    assert(a[0] != "进入华藏寺看一看"@[0]);
    assert(a.len() != b.len() && a.len() != c.len() && b[1] != c[1]);
    assert("1"@[0] != "2"@[0] && "1"@[0] != "3"@[0] && "2"@[0] != "3"@[0]);
}

/// The action a task of 五花堂 asks for, by its description; `None` for tasks the
/// account does not do.
pub fn sect_action(desc: &str) -> (r: Option<SectAction>)
    ensures
        r == spec_sect_action(desc@),
{
    if str_eq(desc, "进入华藏寺看一看") {
        Some(SectAction::Look("cmd=sect_art"))
    } else if str_eq(desc, "进入伏虎寺看一看") {
        Some(SectAction::Look("cmd=sect_trump"))
    } else if str_eq(desc, "进入金顶看一看") {
        Some(SectAction::Look("cmd=sect&op=showcouncil"))
    } else if str_eq(desc, "进入八叶堂看一看") {
        Some(SectAction::Look("cmd=sect&op=showtraining"))
    } else if str_eq(desc, "进入万年寺看一看") {
        Some(SectAction::Look("cmd=sect&op=showincense"))
    } else if str_eq(desc, "与掌门人进行一次武艺切磋") {
        Some(SectAction::Spar("1"))
    } else if str_eq(desc, "与首座进行一次武艺切磋") {
        Some(SectAction::Spar("2"))
    } else if str_eq(desc, "与堂主进行一次武艺切磋") {
        Some(SectAction::Spar("3"))
    } else if str_eq(desc, "查看一名同门成员的资料") {
        Some(SectAction::ViewSameSect)
    } else if str_eq(desc, "查看一名其他门派成员的资料") {
        Some(SectAction::ViewOtherSect)
    } else if str_eq(desc, "进行一次心法修炼") {
        Some(SectAction::Cultivate)
    } else {
        None
    }
}

/// A task of 五花堂.
#[derive(Debug, Clone)]
pub struct SectTask {
    pub id: String,
    /// `"0"` open, `"1"` done and waiting to be claimed, else claimed.
    pub state: String,
    pub desc: String,
}

/// The open tasks among the first `n`, with their actions, in order.
pub open spec fn pending_upto(tasks: Seq<SectTask>, n: int) -> Seq<(usize, SectAction)>
    decreases n,
{
    if n <= 0 {
        seq![]
    } else {
        let prev = pending_upto(tasks, n - 1);
        let t = tasks[n - 1];
        if t.state@ == "0"@ && spec_sect_action(t.desc@) is Some {
            prev.push(((n - 1) as usize, spec_sect_action(t.desc@)->0))
        } else {
            prev
        }
    }
}

/// The open tasks (state `"0"`) whose description the account knows, with the action each
/// asks for.
pub fn pending_tasks(tasks: &Vec<SectTask>) -> (r: Vec<(usize, SectAction)>)
    ensures
        r@ == pending_upto(tasks@, tasks@.len() as int),
{
    let mut out: Vec<(usize, SectAction)> = Vec::new();
    let mut i: usize = 0;
    while i < tasks.len()
        invariant
            i <= tasks@.len(),
            out@ == pending_upto(tasks@, i as int),
        decreases tasks@.len() - i,
    {
        let t = &tasks[i];
        if str_eq(t.state.as_str(), "0") {
            match sect_action(t.desc.as_str()) {
                Some(a) => out.push((i, a)),
                None => {},
            }
        }
        i = i + 1;
    }
    out
}

/// The done tasks among the first `n`, whose rewards are claimed.
pub open spec fn done_upto(tasks: Seq<SectTask>, n: int) -> Seq<usize>
    decreases n,
{
    if n <= 0 {
        seq![]
    } else {
        let prev = done_upto(tasks, n - 1);
        if tasks[n - 1].state@ == "1"@ {
            prev.push((n - 1) as usize)
        } else {
            prev
        }
    }
}

/// The tasks that are done and waiting to be claimed (state `"1"`).
pub fn tasks_to_complete(tasks: &Vec<SectTask>) -> (r: Vec<usize>)
    ensures
        r@ == done_upto(tasks@, tasks@.len() as int),
{
    let mut out: Vec<usize> = Vec::new();
    let mut i: usize = 0;
    while i < tasks.len()
        invariant
            i <= tasks@.len(),
            out@ == done_upto(tasks@, i as int),
        decreases tasks@.len() - i,
    {
        if str_eq(tasks[i].state.as_str(), "1") {
            out.push(i);
        }
        i = i + 1;
    }
    out
}

/// A friend as the friend page lists it, with the sect they are in (`"0"`: none).
#[derive(Debug, Clone)]
pub struct SectMember {
    pub uin: String,
    pub sect: String,
}

/// Whether a friend fits: in some sect, and in the own sect exactly when `same` holds.
pub open spec fn member_fits(m: SectMember, sect_id: Seq<char>, same: bool) -> bool {
    m.sect@ != "0"@ && ((m.sect@ == sect_id) == same)
}

/// The first friend whose profile to look at (see `member_fits`).
pub fn find_sect_member(info: &Vec<SectMember>, sect_id: &str, same: bool) -> (r: Option<usize>)
    ensures
        match r {
            Some(i) => i < info@.len() && member_fits(info@[i as int], sect_id@, same) && forall|
                j: int,
            | 0 <= j < i ==> !member_fits(#[trigger] info@[j], sect_id@, same),
            None => forall|j: int| 0 <= j < info@.len() ==> !member_fits(#[trigger] info@[j], sect_id@, same),
        },
{
    let mut i: usize = 0;
    while i < info.len()
        invariant
            i <= info@.len(),
            forall|j: int| 0 <= j < i ==> !member_fits(#[trigger] info@[j], sect_id@, same),
        decreases info@.len() - i,
    {
        let m = &info[i];
        if !str_eq(m.sect.as_str(), "0") && (str_eq(m.sect.as_str(), sect_id) == same) {
            return Some(i);
        }
        i = i + 1;
    }
    None
}

proof fn lemma_done_are_positions(list: Seq<SectTask>, n: int)
    ensures
        done_upto(list, n) == positions_where(list, |x: SectTask| x.state@ == "1"@, n),
    decreases n,
{
    if n > 0 {
        lemma_done_are_positions(list, n - 1);
    }
}

/// The sect tasks completed are exactly those of state `"1"`, in the order of the list.
pub proof fn law_tasks_to_complete(list: Seq<SectTask>)
    requires
        list.len() <= usize::MAX,
    ensures
        forall|j: int| 0 <= j < list.len() ==> (done_upto(list, list.len() as int).contains(j as usize) <==> (
            (#[trigger] list[j]).state@ == "1"@)),
        forall|k: int, l: int|
            0 <= k < l < done_upto(list, list.len() as int).len() ==> #[trigger]
                done_upto(list, list.len() as int)[k]
                < #[trigger] done_upto(list, list.len() as int)[l],
{
    let n = list.len() as int;
    lemma_done_are_positions(list, n);
    lemma_positions_where(list, |x: SectTask| x.state@ == "1"@, n);
}

/// The visiting tasks open their pages: 华藏寺 with `cmd=sect_art`, 伏虎寺 with
/// `cmd=sect_trump`, 金顶 with the council page, 八叶堂 with the training page and 万年寺
/// with the incense page; the profile tasks look at a member of the own sect or of
/// another sect as they say; the heart technique task trains once. A description outside
/// the eleven tasks asks for nothing.
pub proof fn law_sect_task_actions(desc: Seq<char>)
    ensures
        spec_sect_action("进入华藏寺看一看"@) matches Some(SectAction::Look(c)) && c@ == "cmd=sect_art"@,
        spec_sect_action("进入伏虎寺看一看"@) matches Some(SectAction::Look(c)) && c@ == "cmd=sect_trump"@,
        spec_sect_action("进入金顶看一看"@) matches Some(SectAction::Look(c)) && c@ == "cmd=sect&op=showcouncil"@,
        spec_sect_action("进入八叶堂看一看"@) matches Some(SectAction::Look(c)) && c@ == "cmd=sect&op=showtraining"@,
        spec_sect_action("进入万年寺看一看"@) matches Some(SectAction::Look(c)) && c@ == "cmd=sect&op=showincense"@,
        spec_sect_action("查看一名同门成员的资料"@) == Some(SectAction::ViewSameSect),
        spec_sect_action("查看一名其他门派成员的资料"@) == Some(SectAction::ViewOtherSect),
        spec_sect_action("进行一次心法修炼"@) == Some(SectAction::Cultivate),
        spec_sect_action(desc) is Some <==> (
            desc == "进入华藏寺看一看"@ || desc == "进入伏虎寺看一看"@ ||
            desc == "进入金顶看一看"@ || desc == "进入八叶堂看一看"@ ||
            desc == "进入万年寺看一看"@ || desc == "与掌门人进行一次武艺切磋"@ ||
            desc == "与首座进行一次武艺切磋"@ || desc == "与堂主进行一次武艺切磋"@ ||
            desc == "查看一名同门成员的资料"@ || desc == "查看一名其他门派成员的资料"@ ||
            desc == "进行一次心法修炼"@
        ),
{
    reveal_strlit("进入华藏寺看一看");
    reveal_strlit("进入伏虎寺看一看");
    reveal_strlit("进入金顶看一看");
    reveal_strlit("进入八叶堂看一看");
    reveal_strlit("进入万年寺看一看");
    reveal_strlit("与掌门人进行一次武艺切磋");
    reveal_strlit("与首座进行一次武艺切磋");
    reveal_strlit("与堂主进行一次武艺切磋");
    reveal_strlit("查看一名同门成员的资料");
    reveal_strlit("查看一名其他门派成员的资料");
    reveal_strlit("进行一次心法修炼");
    assert("进入华藏寺看一看"@[2] != "进入伏虎寺看一看"@[2]);
    assert("进入华藏寺看一看"@.len() != "进入金顶看一看"@.len());
    assert("进入伏虎寺看一看"@.len() != "进入金顶看一看"@.len());
    assert("进入华藏寺看一看"@[2] != "进入八叶堂看一看"@[2]);
    assert("进入伏虎寺看一看"@[2] != "进入八叶堂看一看"@[2]);
    assert("进入金顶看一看"@.len() != "进入八叶堂看一看"@.len());
    assert("进入华藏寺看一看"@[2] != "进入万年寺看一看"@[2]);
    assert("进入伏虎寺看一看"@[2] != "进入万年寺看一看"@[2]);
    assert("进入金顶看一看"@.len() != "进入万年寺看一看"@.len());
    assert("进入八叶堂看一看"@[2] != "进入万年寺看一看"@[2]);
    assert("进入华藏寺看一看"@.len() != "与掌门人进行一次武艺切磋"@.len());
    assert("进入伏虎寺看一看"@.len() != "与掌门人进行一次武艺切磋"@.len());
    assert("进入金顶看一看"@.len() != "与掌门人进行一次武艺切磋"@.len());
    assert("进入八叶堂看一看"@.len() != "与掌门人进行一次武艺切磋"@.len());
    assert("进入万年寺看一看"@.len() != "与掌门人进行一次武艺切磋"@.len());
    assert("进入华藏寺看一看"@.len() != "与首座进行一次武艺切磋"@.len());
    assert("进入伏虎寺看一看"@.len() != "与首座进行一次武艺切磋"@.len());
    assert("进入金顶看一看"@.len() != "与首座进行一次武艺切磋"@.len());
    assert("进入八叶堂看一看"@.len() != "与首座进行一次武艺切磋"@.len());
    assert("进入万年寺看一看"@.len() != "与首座进行一次武艺切磋"@.len());
    assert("与掌门人进行一次武艺切磋"@.len() != "与首座进行一次武艺切磋"@.len());
    assert("进入华藏寺看一看"@.len() != "与堂主进行一次武艺切磋"@.len());
    assert("进入伏虎寺看一看"@.len() != "与堂主进行一次武艺切磋"@.len());
    assert("进入金顶看一看"@.len() != "与堂主进行一次武艺切磋"@.len());
    assert("进入八叶堂看一看"@.len() != "与堂主进行一次武艺切磋"@.len());
    assert("进入万年寺看一看"@.len() != "与堂主进行一次武艺切磋"@.len());
    assert("与掌门人进行一次武艺切磋"@.len() != "与堂主进行一次武艺切磋"@.len());
    assert("与首座进行一次武艺切磋"@[1] != "与堂主进行一次武艺切磋"@[1]);
    assert("进入华藏寺看一看"@.len() != "查看一名同门成员的资料"@.len());
    assert("进入伏虎寺看一看"@.len() != "查看一名同门成员的资料"@.len());
    assert("进入金顶看一看"@.len() != "查看一名同门成员的资料"@.len());
    assert("进入八叶堂看一看"@.len() != "查看一名同门成员的资料"@.len());
    assert("进入万年寺看一看"@.len() != "查看一名同门成员的资料"@.len());
    assert("与掌门人进行一次武艺切磋"@.len() != "查看一名同门成员的资料"@.len());
    assert("与首座进行一次武艺切磋"@[0] != "查看一名同门成员的资料"@[0]);
    assert("与堂主进行一次武艺切磋"@[0] != "查看一名同门成员的资料"@[0]);
    assert("进入华藏寺看一看"@.len() != "查看一名其他门派成员的资料"@.len());
    assert("进入伏虎寺看一看"@.len() != "查看一名其他门派成员的资料"@.len());
    assert("进入金顶看一看"@.len() != "查看一名其他门派成员的资料"@.len());
    assert("进入八叶堂看一看"@.len() != "查看一名其他门派成员的资料"@.len());
    assert("进入万年寺看一看"@.len() != "查看一名其他门派成员的资料"@.len());
    assert("与掌门人进行一次武艺切磋"@.len() != "查看一名其他门派成员的资料"@.len());
    assert("与首座进行一次武艺切磋"@.len() != "查看一名其他门派成员的资料"@.len());
    assert("与堂主进行一次武艺切磋"@.len() != "查看一名其他门派成员的资料"@.len());
    assert("查看一名同门成员的资料"@.len() != "查看一名其他门派成员的资料"@.len());
    assert("进入华藏寺看一看"@[1] != "进行一次心法修炼"@[1]);
    assert("进入伏虎寺看一看"@[1] != "进行一次心法修炼"@[1]);
    assert("进入金顶看一看"@.len() != "进行一次心法修炼"@.len());
    assert("进入八叶堂看一看"@[1] != "进行一次心法修炼"@[1]);
    assert("进入万年寺看一看"@[1] != "进行一次心法修炼"@[1]);
    assert("与掌门人进行一次武艺切磋"@.len() != "进行一次心法修炼"@.len());
    assert("与首座进行一次武艺切磋"@.len() != "进行一次心法修炼"@.len());
    assert("与堂主进行一次武艺切磋"@.len() != "进行一次心法修炼"@.len());
    assert("查看一名同门成员的资料"@.len() != "进行一次心法修炼"@.len());
    assert("查看一名其他门派成员的资料"@.len() != "进行一次心法修炼"@.len());
}

/// Sparrings with fellow disciples: with none done today, one without paid sparring and
/// two with it; after one, one more only with paid sparring; otherwise none.
pub proof fn law_sparring_counts(times: Seq<char>, is_paid: bool)
    ensures
        times == "0"@ ==> spec_sparring_count(times, is_paid) == (if is_paid { Some(2u8) } else { Some(1u8) }),
        times == "1"@ ==> spec_sparring_count(times, is_paid) == (if is_paid { Some(1u8) } else { None }),
        (times != "0"@ && times != "1"@) ==> spec_sparring_count(times, is_paid) is None,
{
    reveal_strlit("0");
    reveal_strlit("1");
    assert("0"@[0] != "1"@[0]);
}

} // verus!
