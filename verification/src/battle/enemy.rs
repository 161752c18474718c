//! An enemy: its battle data, the animation clock that paces its turn and
//! the rule by which it picks what to do.

use crate::battle::action::{plain_action, ActionParameters, DamageType};
use crate::battle::animation::{
    elapsed, fade, faded, flash, hurt_opacity, shift, shifted, ticks_since, DEAD_TICKS, HURT_TICKS,
    OPAQUE,
};
use crate::battle::state::{ActionRolls, BattleState, ResolvedEffect, StatusRolls};
use crate::battle::turn::{turn_of, Turn};
use crate::dice::{roll, valid_roll, Chance, ROLL_LIMIT};
use crate::menu::notification::{fresh_banner, post, slot_view, Notification};
use crate::party::character::{Animation as CharacterAnimation, Character};
use crate::party::item::InventoryItem;
use crate::party::{InventoryElement, Party, PartyView};
use vstd::prelude::*;
use vstd::std_specs::cmp::PartialEqSpecImpl;
use vstd::string::StringExecFns;

verus! {

/// Ticks an enemy takes to carry its action to the target.
pub const START_TURN_TICKS: usize = 60;

/// Ticks an enemy takes to end its turn.
pub const END_TURN_TICKS: usize = 30;

/// The phases of an enemy's animation clock.
#[derive(Clone, Copy, Debug)]
pub enum Animation {
    /// Carrying an action to the party member in the given slot; ends by
    /// resolving the action.
    StartTurn(u8, ActionParameters),
    /// Ends the turn.
    EndTurn,
    /// Flashing after a hit; ends by starting to die if no hit points are left.
    Hurt,
    /// Fading; ends dead.
    Dead,
}

impl Animation {
    /// Whether the two are the same phase, whatever action is carried.
    pub open spec fn same_phase(self, other: Animation) -> bool {
        match self {
            Animation::StartTurn(_, _) => other is StartTurn,
            Animation::EndTurn => other is EndTurn,
            Animation::Hurt => other is Hurt,
            Animation::Dead => other is Dead,
        }
    }
}

impl PartialEq for Animation {
    /// Phases are equal if they are the same phase, whatever action is carried.
    fn eq(&self, other: &Self) -> (same: bool) {
        match self {
            Animation::StartTurn(_, _) => match other {
                Animation::StartTurn(_, _) => true,
                _ => false,
            },
            Animation::EndTurn => match other {
                Animation::EndTurn => true,
                _ => false,
            },
            Animation::Hurt => match other {
                Animation::Hurt => true,
                _ => false,
            },
            Animation::Dead => match other {
                Animation::Dead => true,
                _ => false,
            },
        }
    }
}

impl PartialEqSpecImpl for Animation {
    open spec fn obeys_eq_spec() -> bool {
        true
    }

    open spec fn eq_spec(&self, other: &Self) -> bool {
        self.same_phase(*other)
    }
}

/// The rolls one tick of an enemy can call for: whether it acts, whom it
/// picks, and what its action leaves to chance.
#[derive(Clone, Copy, Debug, PartialEq, Eq, Structural)]
pub struct EnemyRolls {
    pub act: u32,
    pub target: u32,
    pub action: ActionRolls,
}

impl EnemyRolls {
    /// Each of them is a roll.
    pub open spec fn valid(self) -> bool {
        valid_roll(self.act) && valid_roll(self.target) && self.action.valid()
    }
}

/// An enemy.
///
/// `selection_pos` is the enemy's place in the formation, as column and row;
/// `screen_pos` and `size` say where and how large it is drawn, in cells.
/// `act_chance` is the chance with which the enemy, given the turn, acts
/// rather than passes.
pub struct Enemy {
    pub spritefile: String,
    pub screen_pos: (i32, i32),
    pub selection_pos: (usize, usize),
    pub size: u32,
    pub turn_active: bool,
    pub opacity: u8,
    /// The phase, the ticks it has left and the tick it started on.
    pub animation: (Animation, usize, usize),
    pub x_offset: i32,
    pub name: String,
    pub state: BattleState,
    pub dead: bool,
    pub escapeable: bool,
    pub act_chance: Chance,
}

/// Which of `count` lots the roll falls on: the first whose upper bound,
/// that many `count`-ths of all rolls, the roll does not exceed; the last
/// one if it exceeds them all.
pub open spec fn lot(roll: u32, count: int) -> int {
    let by_share: int = if roll * count <= ROLL_LIMIT {
        0
    } else if roll * count <= 2 * ROLL_LIMIT {
        1
    } else if roll * count <= 3 * ROLL_LIMIT {
        2
    } else {
        3
    };
    if by_share < count {
        by_share
    } else {
        count - 1
    }
}

/// The slot of the party member an enemy picks, given the roll: one of the
/// members that are alive, each with the same share of the rolls.
pub open spec fn random_target(party: PartyView, roll: u32) -> u8 {
    party.alive_slots()[lot(roll, party.alive_slots().len() as int)]
}

/// The line reported when an enemy attacks.
pub open spec fn attack_message(name: Seq<char>) -> Seq<char> {
    name + " attacks"@
}

/// The line reported when an enemy passes.
pub open spec fn idle_message(name: Seq<char>) -> Seq<char> {
    name + " does nothing"@
}

/// A roll falls on one of the lots there are, and the lots share the rolls
/// evenly: the roll `r` falls on lot `k` exactly if it lies above `k`
/// `count`-ths of all rolls and not above `k + 1` of them.
pub proof fn lemma_lot_in_range(roll: u32, count: int)
    requires
        1 <= count <= 4,
    ensures
        0 <= lot(roll, count) < count,
        valid_roll(roll) ==> lot(roll, count) * ROLL_LIMIT < roll * count || lot(roll, count) == 0,
        valid_roll(roll) ==> roll * count <= (lot(roll, count) + 1) * ROLL_LIMIT,
{
    assert(valid_roll(roll) ==> roll * count < count * ROLL_LIMIT) by (nonlinear_arith)
        requires
            1 <= count <= 4,
    ;
}

/// Picks the party member an enemy goes for; nobody, if nobody is alive.
pub fn get_random_target(party: &Party, roll: u32) -> (slot: Option<u8>)
    ensures
        party@.alive_size() == 0 ==> slot is None,
        party@.alive_size() > 0 ==> slot == Some(random_target(party@, roll)),
        slot matches Some(s) ==> s < 4 && party@.member(s as int).is_alive(),
{
    let party_targets = party.alive_slots();
    if party_targets.len() == 0 {
        return None;
    }
    let count: u64 = party_targets.len() as u64;
    assert(1 <= count <= 4);
    assert(roll * count <= 4 * u32::MAX) by (nonlinear_arith)
        requires
            roll <= u32::MAX,
            count <= 4,
    ;
    let scaled: u64 = roll as u64 * count;
    let by_share: usize = if scaled <= ROLL_LIMIT as u64 {
        0
    } else if scaled <= 2 * ROLL_LIMIT as u64 {
        1
    } else if scaled <= 3 * ROLL_LIMIT as u64 {
        2
    } else {
        3
    };
    let index = if by_share < party_targets.len() {
        by_share
    } else {
        party_targets.len() - 1
    };
    Some(party_targets[index])
}

/// Whether one tick, decided by `rolls`, led from the one enemy, party and
/// shared turn state to the other.
pub open spec fn enemy_updated(
    before: Enemy,
    after: Enemy,
    party_before: PartyView,
    party_after: PartyView,
    turn_before: Turn,
    turn_after: Turn,
    tick: usize,
    rolls: EnemyRolls,
) -> bool {
    &&& after == before.after_update(party_before, tick, turn_before.token, rolls)
    &&& party_after == before.party_after_update(party_before, tick, turn_before.token, rolls)
    &&& turn_after == before.turn_after_update(party_before, turn_before, tick, rolls)
}

/// Draws the rolls for one tick of an enemy: those for its decision if it
/// `decides` on this tick, those for its action if it `resolves` one. Rolls
/// that are not called for are left at zero.
pub fn draw_enemy_rolls(decides: bool, resolves: bool) -> (rolls: EnemyRolls)
    ensures
        rolls.valid(),
        !decides ==> rolls.act == 0 && rolls.target == 0,
        !resolves ==> rolls.action == (ActionRolls {
            status: StatusRolls { dead: 0, poison: 0, sleep: 0 },
            steal: 0,
        }),
{
    let act = if decides {
        roll()
    } else {
        0
    };
    let target = if decides {
        roll()
    } else {
        0
    };
    let action = if resolves {
        crate::battle::state::draw_action_rolls()
    } else {
        ActionRolls { status: StatusRolls { dead: 0, poison: 0, sleep: 0 }, steal: 0 }
    };
    EnemyRolls { act, target, action }
}

impl Enemy {
    pub open spec fn wf(self) -> bool {
        self.state.wf()
    }

    /// Whether the turn token names this enemy and it has not taken the
    /// turn up yet.
    pub open spec fn claims_turn(self, current_turn: u8) -> bool {
        current_turn == self.state.id && !self.turn_active
    }

    /// Whether the enemy, given the turn, acts: its roll succeeds and there
    /// is somebody to go for.
    pub open spec fn acts(self, party: PartyView, rolls: EnemyRolls) -> bool {
        self.act_chance.hits(rolls.act) && party.alive_size() > 0
    }

    /// The action an enemy carries out: a physical attack with the enemy's
    /// attack for power and no status chances.
    pub open spec fn attack_action(self) -> ActionParameters {
        plain_action(DamageType::Physical, self.state.attack)
    }

    /// The enemy as it takes its turn up: it either sets out to attack a
    /// party member picked by lot, or passes and starts to end its turn.
    pub open spec fn with_turn_claimed(self, party: PartyView, tick: usize, rolls: EnemyRolls) -> Enemy {
        if self.acts(party, rolls) {
            Enemy {
                turn_active: true,
                animation: (
                    Animation::StartTurn(random_target(party, rolls.target), self.attack_action()),
                    START_TURN_TICKS,
                    tick,
                ),
                ..self
            }
        } else {
            Enemy { turn_active: true, animation: (Animation::EndTurn, END_TURN_TICKS, tick), ..self }
        }
    }

    /// Where an enemy carrying its action stands one tick on: it moves two
    /// pixels a tick, towards the party during the first ten ticks and from
    /// the thirty-first to the forty-ninth, and back otherwise.
    pub open spec fn lunge(x_offset: i32, time: usize) -> i32 {
        if time <= 10 || (time > 30 && time < 50) {
            shifted(x_offset, -2)
        } else {
            shifted(x_offset, 2)
        }
    }

    /// The enemy one tick into a running phase: one tick less is left, an
    /// enemy carrying its action lunges, a hit flashes and a dying enemy fades.
    pub open spec fn animated(self, tick: usize) -> Enemy {
        let time = elapsed(tick, self.animation.2);
        Enemy {
            animation: (self.animation.0, (self.animation.1 - 1) as usize, self.animation.2),
            x_offset: match self.animation.0 {
                Animation::StartTurn(_, _) => Self::lunge(self.x_offset, time),
                _ => self.x_offset,
            },
            opacity: match self.animation.0 {
                Animation::Hurt => hurt_opacity(self.opacity, time),
                Animation::Dead => faded(self.opacity),
                _ => self.opacity,
            },
            ..self
        }
    }

    /// The enemy after the tick's bookkeeping and before anything a phase
    /// does on ending.
    pub open spec fn before_phase_end(
        self,
        party: PartyView,
        tick: usize,
        current_turn: u8,
        rolls: EnemyRolls,
    ) -> Enemy {
        let stepped = Enemy { state: self.state.after_update(current_turn), ..self };
        let claimed = if self.claims_turn(current_turn) {
            stepped.with_turn_claimed(party, tick, rolls)
        } else {
            stepped
        };
        if claimed.animation.1 > 0 {
            claimed.animated(tick)
        } else {
            claimed
        }
    }

    /// The phase that ends on this tick, if one does.
    pub open spec fn ending_phase(
        self,
        party: PartyView,
        tick: usize,
        current_turn: u8,
        rolls: EnemyRolls,
    ) -> Option<Animation> {
        if !self.claims_turn(current_turn) && self.animation.1 == 1 {
            Some(self.animation.0)
        } else {
            None
        }
    }

    /// What the end of its phase does to the enemy itself.
    ///
    /// Carrying an action ends by starting to end the turn. The end of the
    /// turn gives the turn up and ticks the statuses. A flash ends opaque,
    /// and the enemy starts to die if it has no hit points left. Dying ends
    /// dead and invisible.
    pub open spec fn with_phase_ended(self, tick: usize) -> Enemy {
        match self.animation.0 {
            Animation::StartTurn(_, _) => Enemy {
                animation: (Animation::EndTurn, END_TURN_TICKS, tick),
                ..self
            },
            Animation::EndTurn => Enemy {
                turn_active: false,
                state: self.state.after_end_turn(),
                ..self
            },
            Animation::Hurt => if self.state.hp == 0 {
                Enemy { opacity: OPAQUE, animation: (Animation::Dead, DEAD_TICKS, tick), ..self }
            } else {
                Enemy { opacity: OPAQUE, ..self }
            },
            Animation::Dead => Enemy { opacity: 0, dead: true, ..self },
        }
    }

    /// The enemy one tick later.
    pub open spec fn after_update(
        self,
        party: PartyView,
        tick: usize,
        current_turn: u8,
        rolls: EnemyRolls,
    ) -> Enemy {
        let before = self.before_phase_end(party, tick, current_turn, rolls);
        if self.ending_phase(party, tick, current_turn, rolls) is Some {
            before.with_phase_ended(tick)
        } else {
            before
        }
    }

    /// The party member after an enemy's action reached it on `tick`: the
    /// action is resolved against it, and it flashes unless it was healed.
    pub open spec fn struck(
        member: Character,
        action: ActionParameters,
        inventory: Seq<InventoryElement>,
        tick: usize,
        rolls: ActionRolls,
    ) -> Character {
        let after = member.after_action(action, inventory, tick, rolls);
        if action.damage_type is Healing {
            after
        } else {
            Character { animation: (CharacterAnimation::Hurt, HURT_TICKS, tick), ..after }
        }
    }

    /// The party one tick later: untouched unless the enemy's action
    /// reaches its target on this tick.
    pub open spec fn party_after_update(
        self,
        party: PartyView,
        tick: usize,
        current_turn: u8,
        rolls: EnemyRolls,
    ) -> PartyView {
        match self.ending_phase(party, tick, current_turn, rolls) {
            Some(Animation::StartTurn(slot, action)) => {
                let hit = party.with_member(
                    slot as int,
                    Self::struck(
                        party.member(slot as int),
                        action,
                        party.inventory,
                        tick,
                        rolls.action,
                    ),
                );
                PartyView {
                    inventory: party.member(slot as int).state.inventory_after_resolve(
                        action,
                        party.inventory,
                        rolls.action,
                    ),
                    ..hit
                }
            },
            _ => party,
        }
    }

    /// The shared turn state one tick later.
    ///
    /// The enemy joins the queue when its time bar runs over and gives the
    /// turn up when its turn ends. The banner tells what the enemy decided
    /// as it took the turn up, what its action did as it reached the target,
    /// and what poison took as the turn ended.
    pub open spec fn turn_after_update(
        self,
        party: PartyView,
        turn: Turn,
        tick: usize,
        rolls: EnemyRolls,
    ) -> Turn {
        let queue = if self.state.becomes_ready(turn.token) {
            turn.queue.push(self.state.id)
        } else {
            turn.queue
        };
        let announced = if self.claims_turn(turn.token) {
            if self.acts(party, rolls) {
                fresh_banner(attack_message(self.name@))
            } else {
                fresh_banner(idle_message(self.name@))
            }
        } else {
            turn.banner
        };
        match self.ending_phase(party, tick, turn.token, rolls) {
            Some(Animation::StartTurn(slot, action)) => Turn {
                token: turn.token,
                queue,
                banner: party.member(slot as int).state.banner_after_resolve(
                    action,
                    party.inventory,
                    announced,
                    party.member(slot as int).name@,
                    rolls.action,
                ),
            },
            Some(Animation::EndTurn) => Turn {
                token: 0,
                queue,
                banner: self.state.after_update(turn.token).banner_after_end_turn(
                    announced,
                    self.name@,
                ),
            },
            _ => Turn { token: turn.token, queue, banner: announced },
        }
    }

    /// An enemy entering battle at full hit and magic points, idle.
    pub fn new(
        id: u8,
        spritefile: String,
        screen_pos: (i32, i32),
        selection_pos: (usize, usize),
        size: u32,
        name: String,
        level: u8,
        hp: u16,
        mp: u16,
        attack: u16,
        defence: u16,
        magic: u16,
        resistance: u16,
        agility: u8,
        experience: u32,
        poisoned: i8,
        sleeping: i8,
        back_row: bool,
        common_steal: Option<InventoryItem>,
        rare_steal: Option<InventoryItem>,
        escapeable: bool,
        act_chance: Chance,
    ) -> (enemy: Enemy)
        requires
            defence > 0,
            resistance > 0,
        ensures
            enemy.wf(),
            enemy.spritefile == spritefile,
            enemy.screen_pos == screen_pos,
            enemy.selection_pos == selection_pos,
            enemy.size == size,
            enemy.name == name,
            !enemy.turn_active,
            enemy.opacity == OPAQUE,
            enemy.animation.0 is EndTurn && enemy.animation.1 == 0 && enemy.animation.2 == 0,
            enemy.x_offset == 0,
            !enemy.dead,
            enemy.escapeable == escapeable,
            enemy.act_chance == act_chance,
            enemy.state == (BattleState {
                id,
                level,
                experience,
                max_hp: hp,
                max_mp: mp,
                hp,
                mp,
                attack,
                defence,
                magic,
                resistance,
                agility,
                atb: 0,
                atb_subtick: 0,
                turn_active: false,
                poisoned,
                sleeping,
                back_row,
                common_steal,
                rare_steal,
                character_info: None,
                print_damage: None,
            }),
    {
        Enemy {
            spritefile,
            screen_pos,
            selection_pos,
            size,
            turn_active: false,
            opacity: OPAQUE,
            animation: (Animation::EndTurn, 0, 0),
            x_offset: 0,
            name,
            state: BattleState::new(
                id,
                level,
                hp,
                mp,
                attack,
                defence,
                magic,
                resistance,
                agility,
                experience,
                poisoned,
                sleeping,
                back_row,
                common_steal,
                rare_steal,
                None,
            ),
            dead: false,
            escapeable,
            act_chance,
        }
    }

    /// Takes the turn up: decides, by the rolls given, whether to attack and
    /// whom, and says so.
    pub fn turn_action(
        &mut self,
        party: &Party,
        notification: &mut Option<Notification>,
        tick: usize,
        rolls: EnemyRolls,
    )
        ensures
            *final(self) == old(self).with_turn_claimed(party@, tick, rolls),
            slot_view(*final(notification)) == if old(self).acts(party@, rolls) {
                fresh_banner(attack_message(old(self).name@))
            } else {
                fresh_banner(idle_message(old(self).name@))
            },
    {
        self.turn_active = true;
        let target = if self.act_chance.is_hit(rolls.act) {
            get_random_target(party, rolls.target)
        } else {
            None
        };
        match target {
            Some(slot) => {
                let mut text = self.name.clone();
                text.append(" attacks");
                post(notification, text);
                let action_parameters = ActionParameters::plain(
                    DamageType::Physical,
                    self.state.attack,
                );
                self.animation = (
                    Animation::StartTurn(slot, action_parameters),
                    START_TURN_TICKS,
                    tick,
                );
            },
            None => {
                let mut text = self.name.clone();
                text.append(" does nothing");
                post(notification, text);
                self.animation = (Animation::EndTurn, END_TURN_TICKS, tick);
            },
        }
    }

    /// Carries the enemy's action out on a party member with the rolls
    /// given, and starts to end the enemy's turn.
    pub fn act_on_target_with(
        &mut self,
        inventory: &mut Vec<InventoryElement>,
        notification: &mut Option<Notification>,
        action_parameters: &ActionParameters,
        character: &mut Character,
        tick: usize,
        rolls: ActionRolls,
    )
        requires
            old(character).wf(),
        ensures
            *final(self) == (Enemy {
                animation: (Animation::EndTurn, END_TURN_TICKS, tick),
                ..*old(self)
            }),
            *final(character) == Self::struck(
                *old(character),
                *action_parameters,
                old(inventory)@,
                tick,
                rolls,
            ),
            final(inventory)@ == old(character).state.inventory_after_resolve(
                *action_parameters,
                old(inventory)@,
                rolls,
            ),
            slot_view(*final(notification)) == old(character).state.banner_after_resolve(
                *action_parameters,
                old(inventory)@,
                slot_view(*old(notification)),
                old(character).name@,
                rolls,
            ),
            final(character).wf(),
            final(inventory)@.len() == old(inventory)@.len(),
    {
        self.animation = (Animation::EndTurn, END_TURN_TICKS, tick);
        character.receive_battle_action_with(inventory, notification, action_parameters, tick, rolls);
        match action_parameters.damage_type {
            DamageType::Healing => {},
            _ => {
                character.animation = (CharacterAnimation::Hurt, HURT_TICKS, tick);
            },
        }
    }

    /// Carries the enemy's action out on a party member, fresh rolls
    /// deciding what the action leaves to chance.
    pub fn act_on_target(
        &mut self,
        inventory: &mut Vec<InventoryElement>,
        notification: &mut Option<Notification>,
        action_parameters: &ActionParameters,
        character: &mut Character,
        tick: usize,
    )
        requires
            old(character).wf(),
        ensures
            *final(self) == (Enemy {
                animation: (Animation::EndTurn, END_TURN_TICKS, tick),
                ..*old(self)
            }),
            exists|rolls: ActionRolls|
                rolls.valid() && *final(character) == #[trigger] Self::struck(
                    *old(character),
                    *action_parameters,
                    old(inventory)@,
                    tick,
                    rolls,
                ) && final(inventory)@ == old(character).state.inventory_after_resolve(
                    *action_parameters,
                    old(inventory)@,
                    rolls,
                ) && slot_view(*final(notification)) == old(character).state.banner_after_resolve(
                    *action_parameters,
                    old(inventory)@,
                    slot_view(*old(notification)),
                    old(character).name@,
                    rolls,
                ),
            final(character).wf(),
            final(inventory)@.len() == old(inventory)@.len(),
    {
        let rolls = crate::battle::state::draw_action_rolls();
        self.act_on_target_with(inventory, notification, action_parameters, character, tick, rolls);
        assert(*character == Self::struck(
            *old(character),
            *action_parameters,
            old(inventory)@,
            tick,
            rolls,
        ));
    }

    /// Lets one tick pass, with the rolls given. `tick` is the number of the
    /// tick.
    pub fn update_with(
        &mut self,
        party: &mut Party,
        active_turns: &mut Vec<u8>,
        current_turn: &mut u8,
        notification: &mut Option<Notification>,
        tick: usize,
        rolls: EnemyRolls,
    )
        requires
            old(self).wf(),
            old(party).wf(),
        ensures
            *final(self) == old(self).after_update(old(party)@, tick, *old(current_turn), rolls),
            final(party)@ == old(self).party_after_update(
                old(party)@,
                tick,
                *old(current_turn),
                rolls,
            ),
            turn_of(*final(current_turn), *final(active_turns), *final(notification)) == old(
                self,
            ).turn_after_update(
                old(party)@,
                turn_of(*old(current_turn), *old(active_turns), *old(notification)),
                tick,
                rolls,
            ),
            final(self).wf(),
            final(party).wf(),
            final(party).inventory@.len() == old(party).inventory@.len(),
    {
        self.state.update(current_turn, active_turns);
        if *current_turn == self.state.id && !self.turn_active {
            self.turn_action(party, notification, tick, rolls);
        }
        if self.animation.1 > 0 {
            self.animation.1 = self.animation.1 - 1;
            let time = ticks_since(tick, self.animation.2);
            match self.animation.0 {
                Animation::StartTurn(_, _) => {
                    if time <= 10 || (time > 30 && time < 50) {
                        self.x_offset = shift(self.x_offset, -2);
                    } else {
                        self.x_offset = shift(self.x_offset, 2);
                    }
                },
                Animation::EndTurn => {},
                Animation::Hurt => {
                    self.opacity = flash(self.opacity, time);
                },
                Animation::Dead => {
                    self.opacity = fade(self.opacity);
                },
            }
            if self.animation.1 == 0 {
                match self.animation.0 {
                    Animation::StartTurn(target_number, action_parameters) => {
                        match target_number {
                            0 => self.act_on_target_with(
                                &mut party.inventory,
                                notification,
                                &action_parameters,
                                &mut party.first,
                                tick,
                                rolls.action,
                            ),
                            1 => self.act_on_target_with(
                                &mut party.inventory,
                                notification,
                                &action_parameters,
                                &mut party.second,
                                tick,
                                rolls.action,
                            ),
                            2 => self.act_on_target_with(
                                &mut party.inventory,
                                notification,
                                &action_parameters,
                                &mut party.third,
                                tick,
                                rolls.action,
                            ),
                            _ => self.act_on_target_with(
                                &mut party.inventory,
                                notification,
                                &action_parameters,
                                &mut party.fourth,
                                tick,
                                rolls.action,
                            ),
                        }
                    },
                    Animation::EndTurn => {
                        self.turn_active = false;
                        *current_turn = 0;
                        self.state.end_turn(notification, &self.name);
                    },
                    Animation::Hurt => {
                        self.opacity = OPAQUE;
                        if self.state.hp == 0 {
                            self.animation = (Animation::Dead, DEAD_TICKS, tick);
                        }
                    },
                    Animation::Dead => {
                        self.opacity = 0;
                        self.dead = true;
                    },
                }
            }
        }
    }

    /// Lets one tick pass. Whatever the tick leaves to chance is decided by
    /// fresh rolls, so the outcome is that of `update_with` for some rolls.
    pub fn update(
        &mut self,
        party: &mut Party,
        active_turns: &mut Vec<u8>,
        current_turn: &mut u8,
        notification: &mut Option<Notification>,
        tick: usize,
    )
        requires
            old(self).wf(),
            old(party).wf(),
        ensures
            exists|rolls: EnemyRolls|
                rolls.valid() && #[trigger] enemy_updated(
                    *old(self),
                    *final(self),
                    old(party)@,
                    final(party)@,
                    turn_of(*old(current_turn), *old(active_turns), *old(notification)),
                    turn_of(*final(current_turn), *final(active_turns), *final(notification)),
                    tick,
                    rolls,
                ),
            final(self).wf(),
            final(party).wf(),
            final(party).inventory@.len() == old(party).inventory@.len(),
    {
        let claims = *current_turn == self.state.id && !self.turn_active;
        let carries = match self.animation.0 {
            Animation::StartTurn(_, _) => true,
            _ => false,
        };
        let rolls = draw_enemy_rolls(claims, !claims && carries && self.animation.1 == 1);
        self.update_with(party, active_turns, current_turn, notification, tick, rolls);
        assert(enemy_updated(
            *old(self),
            *self,
            old(party)@,
            party@,
            turn_of(*old(current_turn), *old(active_turns), *old(notification)),
            turn_of(*current_turn, *active_turns, *notification),
            tick,
            rolls,
        ));
    }

    /// The enemy after `action` was resolved against it on `tick`: its state
    /// as the pipeline leaves it, and flashing if it was hit.
    pub open spec fn after_action(
        self,
        action: ActionParameters,
        inventory: Seq<InventoryElement>,
        tick: usize,
        rolls: ActionRolls,
    ) -> Enemy {
        let state = self.state.resolved(action, inventory, rolls);
        if BattleState::effect_of(action, inventory) == ResolvedEffect::Hit {
            Enemy { state, animation: (Animation::Hurt, HURT_TICKS, tick), ..self }
        } else {
            Enemy { state, ..self }
        }
    }

    /// Resolves `action` against the enemy with the rolls given.
    pub fn receive_battle_action_with(
        &mut self,
        inventory: &mut Vec<InventoryElement>,
        notification: &mut Option<Notification>,
        action_parameters: &ActionParameters,
        tick: usize,
        rolls: ActionRolls,
    )
        requires
            old(self).wf(),
        ensures
            *final(self) == old(self).after_action(*action_parameters, old(inventory)@, tick, rolls),
            final(inventory)@ == old(self).state.inventory_after_resolve(
                *action_parameters,
                old(inventory)@,
                rolls,
            ),
            slot_view(*final(notification)) == old(self).state.banner_after_resolve(
                *action_parameters,
                old(inventory)@,
                slot_view(*old(notification)),
                old(self).name@,
                rolls,
            ),
            final(self).wf(),
            final(inventory)@.len() == old(inventory)@.len(),
    {
        let effect = self.state.resolve_with(
            inventory,
            notification,
            &self.name,
            action_parameters,
            rolls,
        );
        if effect == ResolvedEffect::Hit {
            self.animation = (Animation::Hurt, HURT_TICKS, tick);
        }
    }

    /// Resolves `action` against the enemy, fresh rolls deciding what the
    /// action leaves to chance.
    pub fn receive_battle_action(
        &mut self,
        inventory: &mut Vec<InventoryElement>,
        notification: &mut Option<Notification>,
        action_parameters: &ActionParameters,
        tick: usize,
    )
        requires
            old(self).wf(),
        ensures
            exists|rolls: ActionRolls|
                rolls.valid() && *final(self) == #[trigger] old(self).after_action(
                    *action_parameters,
                    old(inventory)@,
                    tick,
                    rolls,
                ) && final(inventory)@ == old(self).state.inventory_after_resolve(
                    *action_parameters,
                    old(inventory)@,
                    rolls,
                ) && slot_view(*final(notification)) == old(self).state.banner_after_resolve(
                    *action_parameters,
                    old(inventory)@,
                    slot_view(*old(notification)),
                    old(self).name@,
                    rolls,
                ),
            final(self).wf(),
            final(inventory)@.len() == old(inventory)@.len(),
    {
        let rolls = crate::battle::state::draw_action_rolls();
        self.receive_battle_action_with(inventory, notification, action_parameters, tick, rolls);
        assert(*self == old(self).after_action(*action_parameters, old(inventory)@, tick, rolls));
    }
}

/// The turn protocol, as an enemy keeps it. An enemy takes the turn up only
/// on a tick on which the token names it; it gives the token up only at the
/// end of its turn, and lets go of the turn on that same tick; and it never
/// hands the token to anybody.
pub proof fn lemma_enemy_keeps_turn_protocol(
    enemy: Enemy,
    party: PartyView,
    turn: Turn,
    tick: usize,
    rolls: EnemyRolls,
)
    ensures
        ({
            let after = enemy.after_update(party, tick, turn.token, rolls);
            let token = enemy.turn_after_update(party, turn, tick, rolls).token;
            &&& after.turn_active && !enemy.turn_active ==> turn.token == enemy.state.id
            &&& token == turn.token || token == 0
            &&& token != turn.token ==> !after.turn_active
            &&& after.state.id == enemy.state.id
        }),
{
}

} // verus!
