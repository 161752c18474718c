//! Fleeing: the party's attempt to leave a battle.

use crate::battle::enemy::Enemy;
use crate::battle::turn::Turn;
use crate::battle::{Battle, BattleView};
use crate::dice::{roll, valid_roll};
use crate::menu::notification::{fresh_banner, post};
use crate::party::character::{Animation, Character, Sprite, FLEE_TICKS};
use crate::party::{Party, PartyView};
use vstd::prelude::*;

verus! {

/// Rolls below this let the party get away: eight in ten of all rolls.
pub const FLEE_BELOW: u32 = 13_421_773;

/// Whether the enemy lets the party run: it can be run from, and it can
/// still be targeted, which it can while it has hit points left.
pub open spec fn lets_run(enemy: Enemy) -> bool {
    enemy.escapeable && enemy.state.hp != 0
}

/// Whether column `column` of the formation holds an enemy that lets the
/// party run.
pub open spec fn column_escapable(column: Seq<Enemy>) -> bool {
    exists|j: int| 0 <= j < column.len() && lets_run(#[trigger] column[j])
}

/// Whether the formation holds an enemy that lets the party run.
pub open spec fn escapable(roster: Seq<Seq<Enemy>>) -> bool {
    exists|i: int| 0 <= i < roster.len() && column_escapable(#[trigger] roster[i])
}

/// Whether the attempt succeeds: some enemy lets the party run and the roll
/// is low enough.
pub open spec fn gets_away(roster: Seq<Seq<Enemy>>, roll: u32) -> bool {
    escapable(roster) && roll < FLEE_BELOW
}

/// A member as the party runs: one with hit points left turns to run.
pub open spec fn fleeing(member: Character, tick: usize) -> Character {
    if member.state.hp > 0 {
        Character {
            sprite: Sprite::WalkLeft,
            animation: (Animation::Flee, FLEE_TICKS, tick),
            ..member
        }
    } else {
        member
    }
}

/// The party after the attempt.
pub open spec fn party_after_flee(
    party: PartyView,
    roster: Seq<Seq<Enemy>>,
    tick: usize,
    roll: u32,
) -> PartyView {
    if gets_away(roster, roll) {
        PartyView {
            first: fleeing(party.first, tick),
            second: fleeing(party.second, tick),
            third: fleeing(party.third, tick),
            fourth: fleeing(party.fourth, tick),
            inventory: party.inventory,
        }
    } else {
        party
    }
}

/// The battle after the attempt: the banner tells how it went.
pub open spec fn battle_after_flee(battle: BattleView, roll: u32) -> BattleView {
    BattleView {
        turn: Turn {
            banner: if gets_away(battle.roster, roll) {
                fresh_banner("Party escaped the battle"@)
            } else {
                fresh_banner("Could not manage to flee"@)
            },
            ..battle.turn
        },
        ..battle
    }
}

/// Whether the attempt, decided by `roll`, led from the one party and battle
/// to the other.
pub open spec fn flee_resolved(
    party_before: PartyView,
    party_after: PartyView,
    battle_before: BattleView,
    battle_after: BattleView,
    tick: usize,
    roll: u32,
) -> bool {
    &&& party_after == party_after_flee(party_before, battle_before.roster, tick, roll)
    &&& battle_after == battle_after_flee(battle_before, roll)
}

/// Whether the formation holds an enemy that lets the party run.
pub fn any_escapable(enemies: &Vec<Vec<Enemy>>) -> (found: bool)
    ensures
        found == escapable(crate::battle::roster_of(*enemies)),
{
    let ghost roster = crate::battle::roster_of(*enemies);
    let mut i: usize = 0;
    while i < enemies.len()
        invariant
            0 <= i <= enemies.len(),
            roster == crate::battle::roster_of(*enemies),
            forall|c: int| 0 <= c < i ==> !column_escapable(#[trigger] roster[c]),
        decreases enemies.len() - i,
    {
        let mut j: usize = 0;
        while j < enemies[i].len()
            invariant
                0 <= j <= enemies[i as int].len(),
                i < enemies.len(),
                roster == crate::battle::roster_of(*enemies),
                forall|k: int| 0 <= k < j ==> !lets_run(#[trigger] roster[i as int][k]),
            decreases enemies[i as int].len() - j,
        {
            if enemies[i][j].escapeable && enemies[i][j].state.hp != 0 {
                assert(lets_run(roster[i as int][j as int]));
                assert(column_escapable(roster[i as int]));
                return true;
            }
            j = j + 1;
        }
        i = i + 1;
    }
    false
}

/// Turns a member to run, if it has hit points left.
fn turn_to_run(member: &mut Character, tick: usize)
    ensures
        *final(member) == fleeing(*old(member), tick),
        old(member).wf() ==> final(member).wf(),
{
    if member.state.hp > 0 {
        member.sprite = Sprite::WalkLeft;
        member.animation = (Animation::Flee, FLEE_TICKS, tick);
    }
}

/// Resolves the party's attempt to flee with the roll given.
pub fn flee_action_with(party: &mut Party, battle: &mut Battle, tick: usize, roll: u32) -> (away:
    bool)
    ensures
        final(party)@ == party_after_flee(old(party)@, old(battle)@.roster, tick, roll),
        final(battle)@ == battle_after_flee(old(battle)@, roll),
        away == gets_away(old(battle)@.roster, roll),
        old(party).wf() ==> final(party).wf(),
        old(battle).wf() ==> final(battle).wf(),
{
    let escapeable = any_escapable(&battle.enemies);
    if escapeable && roll < FLEE_BELOW {
        turn_to_run(&mut party.first, tick);
        turn_to_run(&mut party.second, tick);
        turn_to_run(&mut party.third, tick);
        turn_to_run(&mut party.fourth, tick);
        post(&mut battle.notification, "Party escaped the battle".to_owned());
        true
    } else {
        post(&mut battle.notification, "Could not manage to flee".to_owned());
        false
    }
}

/// Resolves the party's attempt to flee. A fresh roll decides it, so the
/// outcome is that of `flee_action_with` for some roll.
pub fn flee_action(party: &mut Party, battle: &mut Battle, tick: usize) -> (away: bool)
    ensures
        exists|r: u32|
            valid_roll(r) && #[trigger] flee_resolved(
                old(party)@,
                final(party)@,
                old(battle)@,
                final(battle)@,
                tick,
                r,
            ) && away == gets_away(old(battle)@.roster, r),
        !escapable(old(battle)@.roster) ==> !away && final(party)@ == old(party)@,
        old(party).wf() ==> final(party).wf(),
        old(battle).wf() ==> final(battle).wf(),
{
    let r = roll();
    let away = flee_action_with(party, battle, tick, r);
    assert(flee_resolved(old(party)@, party@, old(battle)@, battle@, tick, r));
    away
}

} // verus!
