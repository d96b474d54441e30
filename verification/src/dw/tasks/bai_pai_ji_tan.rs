//! The faction altar: spins the wheel; raids and thefts go first to the revenge list, then
//! to the faction drawn at random, then to the factions at war.
use vstd::prelude::*;

use crate::text::{owned, str_eq, views};

verus! {

/// The next step at the altar.
#[derive(Debug, Clone, Copy, PartialEq, Eq, Structural)]
pub enum AltarStep {
    /// No spin left and no action under way: stop.
    Stop,
    /// A reward is waiting: claim it, then look again.
    Claim,
    /// A raid is due (`"1003"`): raid; stop if no raid succeeded, else spin the wheel.
    Rob,
    /// A theft is due (`"1004"`): steal; stop if no theft succeeded, else spin the wheel.
    Steal,
    /// Spin the wheel; stop if that fails.
    Spin,
}

pub open spec fn spec_altar_step(left_free_wheel_times: Seq<char>, current_action_id: Seq<char>, last_reward_level: Seq<char>) -> AltarStep {
    if left_free_wheel_times == "0"@ && current_action_id == "0"@ {
        AltarStep::Stop
    } else if last_reward_level != "0"@ {
        AltarStep::Claim
    } else if current_action_id == "1003"@ {
        AltarStep::Rob
    } else if current_action_id == "1004"@ {
        AltarStep::Steal
    } else {
        AltarStep::Spin
    }
}

/// The step from the altar's page.
pub fn altar_step(left_free_wheel_times: &str, current_action_id: &str, last_reward_level: &str) -> (r: AltarStep)
    ensures
        r == spec_altar_step(left_free_wheel_times@, current_action_id@, last_reward_level@),
{
    if str_eq(left_free_wheel_times, "0") && str_eq(current_action_id, "0") {
        AltarStep::Stop
    } else if !str_eq(last_reward_level, "0") {
        AltarStep::Claim
    } else if str_eq(current_action_id, "1003") {
        AltarStep::Rob
    } else if str_eq(current_action_id, "1004") {
        AltarStep::Steal
    } else {
        AltarStep::Spin
    }
}

/// The factions to try, in order: the revenge list, the random faction when there is one,
/// the factions at war.
pub open spec fn spec_altar_targets(revenge: Seq<Seq<char>>, random: Seq<char>, enemies: Seq<Seq<char>>) -> Seq<Seq<char>> {
    if random.len() > 0 {
        revenge.push(random) + enemies
    } else {
        revenge + enemies
    }
}

fn push_all(out: &mut Vec<String>, ids: &Vec<String>)
    ensures
        views(final(out)@) == views(old(out)@) + views(ids@),
{
    let ghost start = views(out@);
    let mut i: usize = 0;
    while i < ids.len()
        invariant
            i <= ids@.len(),
            views(out@) == start + views(ids@.subrange(0, i as int)),
        decreases ids@.len() - i,
    {
        let ghost before = out@;
        let item = owned(ids[i].as_str());
        out.push(item);
        assert(views(out@) =~= views(before).push(ids@[i as int]@));
        assert(views(ids@.subrange(0, i + 1)) =~= views(ids@.subrange(0, i as int)).push(ids@[i as int]@));
        i = i + 1;
    }
    assert(ids@.subrange(0, ids@.len() as int) =~= ids@);
}

/// The ids of the factions to raid or rob, in the order they are tried (see
/// `spec_altar_targets`); the first that succeeds ends the round.
pub fn altar_targets(revenge: &Vec<String>, random: &str, enemies: &Vec<String>) -> (r: Vec<String>)
    ensures
        views(r@) == spec_altar_targets(views(revenge@), random@, views(enemies@)),
{
    let mut out: Vec<String> = Vec::new();
    assert(views(out@) =~= Seq::<Seq<char>>::empty());
    push_all(&mut out, revenge);
    if !random.is_empty() {
        let ghost before = out@;
        let item = owned(random);
        out.push(item);
        assert(views(out@) =~= views(before).push(random@));
    }
    push_all(&mut out, enemies);
    out
}


/// The altar: with no spin left and no action under way it stops; a waiting reward is
/// claimed first; a pending raid (`"1003"`) or theft (`"1004"`) is carried out; otherwise
/// the wheel spins.
pub proof fn law_altar_steps(left: Seq<char>, action: Seq<char>, level: Seq<char>)
    ensures
        (spec_altar_step(left, action, level) == AltarStep::Stop) <==> (left == "0"@ && action == "0"@),
        (spec_altar_step(left, action, level) == AltarStep::Claim) <==> (!(left == "0"@ && action == "0"@)
            && level != "0"@),
        (spec_altar_step(left, action, level) == AltarStep::Rob) <==> (!(left == "0"@ && action == "0"@) && level
            == "0"@ && action == "1003"@),
        (spec_altar_step(left, action, level) == AltarStep::Steal) <==> (!(left == "0"@ && action == "0"@) && level
            == "0"@ && action == "1004"@),
{
    reveal_strlit("1003");
    reveal_strlit("1004");
    assert("1003"@[3] != "1004"@[3]);
}

/// The targets come revenge list first, then the randomly assigned faction (when there is
/// one), then the factions at war; nothing is dropped or added.
pub proof fn law_altar_target_order(revenge: Seq<Seq<char>>, random: Seq<char>, enemies: Seq<Seq<char>>)
    ensures
        spec_altar_targets(revenge, random, enemies).take(revenge.len() as int) == revenge,
        random.len() > 0 ==> spec_altar_targets(revenge, random, enemies)[revenge.len() as int] == random,
        spec_altar_targets(revenge, random, enemies).len() == revenge.len() + enemies.len() + (if random.len() > 0 {
            1int
        } else {
            0int
        }),
        spec_altar_targets(revenge, random, enemies).skip(
            spec_altar_targets(revenge, random, enemies).len() - enemies.len(),
        ) == enemies,
{
    let t = spec_altar_targets(revenge, random, enemies);
    assert(t.take(revenge.len() as int) =~= revenge);
    assert(t.skip(t.len() - enemies.len()) =~= enemies);
}

} // verus!
