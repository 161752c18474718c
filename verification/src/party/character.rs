//! A party member: its battle data and the animation clock that paces its
//! turn.

use crate::battle::action::ActionParameters;
use crate::battle::animation::{
    elapsed, flash, hurt_opacity, shift, shifted, step_frame, ticks_since, walk_frame, DEAD_TICKS,
    HURT_TICKS, OPAQUE,
};
use crate::battle::state::{ActionRolls, BattleState, ResolvedEffect};
use crate::battle::turn::{turn_of, Turn};
use crate::menu::item::OnClickEvent;
use crate::menu::notification::{fresh_banner, post, slot_view, Banner, Notification};
use crate::party::character_info::CharacterInfo;
use crate::party::InventoryElement;
use vstd::prelude::*;
use vstd::string::StringExecFns;

verus! {

/// Ticks a member takes to step forward when its turn starts.
pub const START_TURN_TICKS: usize = 12;

/// Ticks a member takes to step back when its turn ends.
pub const END_TURN_TICKS: usize = 12;

/// Ticks a member's attack takes.
pub const ATTACK_TICKS: usize = 60;

/// Ticks the party takes to run from a battle.
pub const FLEE_TICKS: usize = 80;

/// The phases of a party member's animation clock.
#[derive(Clone, Copy, Debug, PartialEq, Eq, Structural)]
pub enum Animation {
    /// Stepping forward; ends by asking for the member's command.
    StartTurn,
    /// Stepping back; ends the turn.
    EndTurn,
    /// Carrying out a command; ends by stepping back.
    Attack,
    /// Flashing after a hit.
    Hurt,
    /// Falling.
    Dead,
    /// Running from the battle.
    Flee,
}

/// The poses a party member is drawn in.
#[derive(Clone, Copy, Debug, PartialEq, Eq, Structural)]
pub enum Sprite {
    _StandLeft,
    WalkLeft,
    StandRight,
    WalkRight,
    _StandUp,
    _WalkUp,
    _StandDown,
    _WalkDown,
    Dead,
    Attack,
    Victory,
}

/// What a tick of a party member's clock asks of the caller.
#[derive(Clone, Copy, Debug, PartialEq, Eq, Structural)]
pub enum CharacterEvent {
    Nothing,
    /// The member has stepped forward and awaits its command.
    OpenBattleMenu,
    /// The member has run from the battle.
    Fled,
}

/// A party member. A member without a name is an empty slot: it is neither
/// updated nor counted.
pub struct Character {
    pub avatar_spritefile: String,
    pub opacity: u8,
    /// The phase, the ticks it has left and the tick it started on.
    pub animation: (Animation, usize, usize),
    pub sprite: Sprite,
    pub frame: u8,
    pub x_offset: i32,
    pub name: String,
    pub state: BattleState,
    pub attack_ability: (String, OnClickEvent),
    pub primary_ability: (String, OnClickEvent),
    pub secondary_ability: (String, OnClickEvent),
}

/// The line reported when a member falls.
pub open spec fn death_message(name: Seq<char>) -> Seq<char> {
    name + " dead"@
}

impl Character {
    pub open spec fn wf(self) -> bool {
        self.state.wf()
    }

    /// Whether the member is as one that has just joined: standing at rest
    /// in its place, opaque, at full hit and magic points, without
    /// experience, status, loot or floating number, its time bar empty, its
    /// badge row empty, and not holding the turn.
    pub open spec fn is_new(self) -> bool {
        &&& self.animation == (Animation::EndTurn, 0usize, 0usize)
        &&& self.sprite == Sprite::StandRight
        &&& self.opacity == OPAQUE
        &&& self.frame == 0
        &&& self.x_offset == 0
        &&& self.state.hp == self.state.max_hp
        &&& self.state.mp == self.state.max_mp
        &&& self.state.experience == 0
        &&& self.state.poisoned == 0
        &&& self.state.sleeping == 0
        &&& self.state.atb == 0
        &&& self.state.atb_subtick == 0
        &&& !self.state.turn_active
        &&& self.state.common_steal is None
        &&& self.state.rare_steal is None
        &&& self.state.character_info == Some(CharacterInfo { first: None, second: None })
        &&& self.state.print_damage is None
    }

    /// Whether the member has the id, the level, the maxima and the stats
    /// given and stands in the row given.
    pub open spec fn has_stats(
        self,
        id: u8,
        level: u8,
        max_hp: u16,
        max_mp: u16,
        attack: u16,
        defence: u16,
        magic: u16,
        resistance: u16,
        agility: u8,
        back_row: bool,
    ) -> bool {
        &&& self.state.id == id
        &&& self.state.level == level
        &&& self.state.max_hp == max_hp
        &&& self.state.max_mp == max_mp
        &&& self.state.attack == attack
        &&& self.state.defence == defence
        &&& self.state.magic == magic
        &&& self.state.resistance == resistance
        &&& self.state.agility == agility
        &&& self.state.back_row == back_row
    }

    /// Whether the slot holds a member.
    pub open spec fn is_present(self) -> bool {
        self.name@.len() > 0
    }

    /// Whether the member is there and has hit points left.
    pub open spec fn is_alive(self) -> bool {
        self.is_present() && self.state.hp > 0
    }

    /// Whether the turn token names this member and it has not taken the
    /// turn up yet.
    pub open spec fn claims_turn(self, current_turn: u8) -> bool {
        current_turn == self.state.id && !self.state.turn_active
    }

    /// The member as it takes its turn up: it starts to step forward.
    pub open spec fn with_turn_claimed(self, tick: usize) -> Character {
        Character {
            state: BattleState { turn_active: true, ..self.state },
            sprite: Sprite::WalkRight,
            animation: (Animation::StartTurn, START_TURN_TICKS, tick),
            ..self
        }
    }

    /// The member one tick into a running phase: one tick less is left, the
    /// walk cycle moves on, a step forward or back moves three pixels and a
    /// hit flashes.
    pub open spec fn animated(self, tick: usize) -> Character {
        let time = elapsed(tick, self.animation.2);
        Character {
            animation: (self.animation.0, (self.animation.1 - 1) as usize, self.animation.2),
            frame: walk_frame(self.frame, time),
            x_offset: match self.animation.0 {
                Animation::StartTurn => shifted(self.x_offset, 3),
                Animation::EndTurn => shifted(self.x_offset, -3),
                _ => self.x_offset,
            },
            opacity: match self.animation.0 {
                Animation::Hurt => hurt_opacity(self.opacity, time),
                _ => self.opacity,
            },
            ..self
        }
    }

    /// The member after the tick's bookkeeping and before anything a phase
    /// does on ending: the time bar has stepped, the turn was taken up if it
    /// was this member's, and a running phase has moved on by one tick.
    pub open spec fn before_phase_end(self, tick: usize, current_turn: u8) -> Character {
        let stepped = Character { state: self.state.after_update(current_turn), ..self };
        let claimed = if self.claims_turn(current_turn) {
            stepped.with_turn_claimed(tick)
        } else {
            stepped
        };
        if claimed.animation.1 > 0 {
            claimed.animated(tick)
        } else {
            claimed
        }
    }

    /// The phase that ends on this tick, if one does.
    pub open spec fn ending_phase(self, tick: usize, current_turn: u8) -> Option<Animation> {
        let running = if self.claims_turn(current_turn) {
            START_TURN_TICKS
        } else {
            self.animation.1
        };
        if self.is_present() && running == 1 {
            Some(self.before_phase_end(tick, current_turn).animation.0)
        } else {
            None
        }
    }

    /// The member as it starts to fall.
    pub open spec fn falling(self, tick: usize) -> Character {
        Character { animation: (Animation::Dead, DEAD_TICKS, tick), ..self }
    }

    /// The member as it starts to step back.
    pub open spec fn stepping_back(self, tick: usize) -> Character {
        Character {
            animation: (Animation::EndTurn, END_TURN_TICKS, tick),
            sprite: Sprite::WalkLeft,
            ..self
        }
    }

    /// What the end of its phase does to the member.
    ///
    /// A step forward ends standing. A step back ends the turn: the member
    /// gives the turn up, its statuses tick, and it falls if poison took its
    /// last hit point. An attack ends by stepping back. A flash ends opaque,
    /// then the member steps back if it holds the turn and falls if it has
    /// no hit points left. A fall ends lying.
    pub open spec fn with_phase_ended(self, tick: usize) -> Character {
        let rested = Character { frame: 0, ..self };
        match self.animation.0 {
            Animation::StartTurn => Character { sprite: Sprite::StandRight, ..rested },
            Animation::EndTurn => {
                let state = (BattleState { turn_active: false, ..self.state }).after_end_turn();
                let done = Character { sprite: Sprite::StandRight, state, ..rested };
                if state.hp == 0 {
                    done.falling(tick)
                } else {
                    done
                }
            },
            Animation::Attack => rested.stepping_back(tick),
            Animation::Hurt => {
                let shown = Character { opacity: OPAQUE, ..rested };
                if self.state.turn_active {
                    shown.stepping_back(tick)
                } else if self.state.hp == 0 {
                    shown.falling(tick)
                } else {
                    shown
                }
            },
            Animation::Dead => Character { sprite: Sprite::Dead, ..rested },
            Animation::Flee => rested,
        }
    }

    /// The member one tick later.
    pub open spec fn after_update(self, tick: usize, current_turn: u8) -> Character {
        if !self.is_present() {
            self
        } else if self.ending_phase(tick, current_turn) is Some {
            self.before_phase_end(tick, current_turn).with_phase_ended(tick)
        } else {
            self.before_phase_end(tick, current_turn)
        }
    }

    /// The turn token one tick later: given up when a step back ends.
    pub open spec fn token_after_update(self, tick: usize, current_turn: u8) -> u8 {
        if self.ending_phase(tick, current_turn) == Some(Animation::EndTurn) {
            0
        } else {
            current_turn
        }
    }

    /// The queue of the ready one tick later: the member joins it when its
    /// time bar runs over.
    pub open spec fn queue_after_update(self, queue: Seq<u8>, current_turn: u8) -> Seq<u8> {
        if self.is_present() && self.state.becomes_ready(current_turn) {
            queue.push(self.state.id)
        } else {
            queue
        }
    }

    /// Whether the member starts to fall on this tick.
    pub open spec fn falls(self, tick: usize, current_turn: u8) -> bool {
        let before = self.before_phase_end(tick, current_turn);
        match self.ending_phase(tick, current_turn) {
            Some(Animation::EndTurn) => before.state.after_end_turn().hp == 0,
            Some(Animation::Hurt) => !before.state.turn_active && before.state.hp == 0,
            _ => false,
        }
    }

    /// The banner one tick later: a fall is reported; failing that, the
    /// poison that took its toll as the turn ended.
    pub open spec fn banner_after_update(
        self,
        banner: Option<Banner>,
        tick: usize,
        current_turn: u8,
    ) -> Option<Banner> {
        if self.falls(tick, current_turn) {
            fresh_banner(death_message(self.name@))
        } else if self.ending_phase(tick, current_turn) == Some(Animation::EndTurn) {
            self.before_phase_end(tick, current_turn).state.banner_after_end_turn(
                banner,
                self.name@,
            )
        } else {
            banner
        }
    }

    /// The shared turn state one tick later.
    pub open spec fn turn_after_update(self, turn: Turn, tick: usize) -> Turn {
        Turn {
            token: self.token_after_update(tick, turn.token),
            queue: self.queue_after_update(turn.queue, turn.token),
            banner: self.banner_after_update(turn.banner, tick, turn.token),
        }
    }

    /// What the tick asks of the caller.
    pub open spec fn event_of_update(self, tick: usize, current_turn: u8) -> CharacterEvent {
        match self.ending_phase(tick, current_turn) {
            Some(Animation::StartTurn) => CharacterEvent::OpenBattleMenu,
            Some(Animation::Flee) => CharacterEvent::Fled,
            _ => CharacterEvent::Nothing,
        }
    }

    /// The member after `action` was resolved against it on `tick`: its
    /// state as the pipeline leaves it, and flashing if it was hit.
    pub open spec fn after_action(
        self,
        action: ActionParameters,
        inventory: Seq<InventoryElement>,
        tick: usize,
        rolls: ActionRolls,
    ) -> Character {
        let state = self.state.resolved(action, inventory, rolls);
        if BattleState::effect_of(action, inventory) == ResolvedEffect::Hit {
            Character { state, animation: (Animation::Hurt, HURT_TICKS, tick), ..self }
        } else {
            Character { state, ..self }
        }
    }

    /// A member entering the party at full hit and magic points, standing.
    pub fn new(
        id: u8,
        avatar_spritefile: String,
        name: String,
        level: u8,
        hp: u16,
        mp: u16,
        attack: u16,
        defence: u16,
        magic: u16,
        resistance: u16,
        agility: u8,
        back_row: bool,
        attack_ability: (String, OnClickEvent),
        primary_ability: (String, OnClickEvent),
        secondary_ability: (String, OnClickEvent),
    ) -> (member: Character)
        requires
            defence > 0,
            resistance > 0,
        ensures
            member.wf(),
            member.is_new(),
            member.name == name,
            member.avatar_spritefile == avatar_spritefile,
            member.attack_ability == attack_ability,
            member.primary_ability == primary_ability,
            member.secondary_ability == secondary_ability,
            member.has_stats(id, level, hp, mp, attack, defence, magic, resistance, agility, back_row),
    {
        let character_info = CharacterInfo::new();
        Character {
            avatar_spritefile,
            opacity: OPAQUE,
            animation: (Animation::EndTurn, 0, 0),
            sprite: Sprite::StandRight,
            frame: 0,
            x_offset: 0,
            name,
            state: BattleState::new(
                id,
                level,
                hp,
                mp,
                attack,
                defence,
                magic,
                resistance,
                agility,
                0,
                0,
                0,
                back_row,
                None,
                None,
                Some(character_info),
            ),
            attack_ability,
            primary_ability,
            secondary_ability,
        }
    }

    /// Whether the slot holds a member.
    pub fn present(&self) -> (present: bool)
        ensures
            present == self.is_present(),
    {
        !self.name.as_str().is_empty()
    }

    /// Whether the member is there and has hit points left.
    pub fn alive(&self) -> (alive: bool)
        ensures
            alive == self.is_alive(),
    {
        self.present() && self.state.hp > 0
    }

    /// Lets one tick pass. `tick` is the number of the tick.
    pub fn update(
        &mut self,
        tick: usize,
        active_turns: &mut Vec<u8>,
        current_turn: &mut u8,
        notification: &mut Option<Notification>,
    ) -> (event: CharacterEvent)
        requires
            old(self).wf(),
        ensures
            *final(self) == old(self).after_update(tick, *old(current_turn)),
            turn_of(*final(current_turn), *final(active_turns), *final(notification)) == old(
                self,
            ).turn_after_update(
                turn_of(*old(current_turn), *old(active_turns), *old(notification)),
                tick,
            ),
            event == old(self).event_of_update(tick, *old(current_turn)),
            final(self).wf(),
    {
        let mut event = CharacterEvent::Nothing;
        if self.present() {
            self.state.update(current_turn, active_turns);
            if *current_turn == self.state.id && !self.state.turn_active {
                self.state.turn_active = true;
                self.sprite = Sprite::WalkRight;
                self.animation = (Animation::StartTurn, START_TURN_TICKS, tick);
            }
            if self.animation.1 > 0 {
                self.animation.1 = self.animation.1 - 1;
                let time = ticks_since(tick, self.animation.2);
                self.frame = step_frame(self.frame, time);
                match self.animation.0 {
                    Animation::StartTurn => {
                        self.x_offset = shift(self.x_offset, 3);
                    },
                    Animation::EndTurn => {
                        self.x_offset = shift(self.x_offset, -3);
                    },
                    Animation::Hurt => {
                        self.opacity = flash(self.opacity, time);
                    },
                    _ => {},
                }
                if self.animation.1 == 0 {
                    self.frame = 0;
                    match self.animation.0 {
                        Animation::StartTurn => {
                            self.sprite = Sprite::StandRight;
                            event = CharacterEvent::OpenBattleMenu;
                        },
                        Animation::EndTurn => {
                            self.sprite = Sprite::StandRight;
                            self.state.turn_active = false;
                            *current_turn = 0;
                            self.state.end_turn(notification, &self.name);
                            if self.state.hp == 0 {
                                self.fall(tick, notification);
                            }
                        },
                        Animation::Attack => {
                            self.animation = (Animation::EndTurn, END_TURN_TICKS, tick);
                            self.sprite = Sprite::WalkLeft;
                        },
                        Animation::Hurt => {
                            self.opacity = OPAQUE;
                            if self.state.turn_active {
                                self.animation = (Animation::EndTurn, END_TURN_TICKS, tick);
                                self.sprite = Sprite::WalkLeft;
                            } else if self.state.hp == 0 {
                                self.fall(tick, notification);
                            }
                        },
                        Animation::Dead => {
                            self.sprite = Sprite::Dead;
                        },
                        Animation::Flee => {
                            event = CharacterEvent::Fled;
                        },
                    }
                }
            }
        }
        event
    }

    /// Starts the member's fall and reports it.
    fn fall(&mut self, tick: usize, notification: &mut Option<Notification>)
        ensures
            *final(self) == old(self).falling(tick),
            slot_view(*final(notification)) == fresh_banner(death_message(old(self).name@)),
    {
        self.animation = (Animation::Dead, DEAD_TICKS, tick);
        let mut text = self.name.clone();
        text.append(" dead");
        post(notification, text);
    }

    /// Resolves `action` against the member with the rolls given.
    pub fn receive_battle_action_with(
        &mut self,
        inventory: &mut Vec<InventoryElement>,
        notification: &mut Option<Notification>,
        action_parameters: &ActionParameters,
        tick: usize,
        rolls: ActionRolls,
    )
        requires
            old(self).wf(),
        ensures
            *final(self) == old(self).after_action(*action_parameters, old(inventory)@, tick, rolls),
            final(inventory)@ == old(self).state.inventory_after_resolve(
                *action_parameters,
                old(inventory)@,
                rolls,
            ),
            slot_view(*final(notification)) == old(self).state.banner_after_resolve(
                *action_parameters,
                old(inventory)@,
                slot_view(*old(notification)),
                old(self).name@,
                rolls,
            ),
            final(self).wf(),
            final(inventory)@.len() == old(inventory)@.len(),
    {
        let effect = self.state.resolve_with(
            inventory,
            notification,
            &self.name,
            action_parameters,
            rolls,
        );
        if effect == ResolvedEffect::Hit {
            self.animation = (Animation::Hurt, HURT_TICKS, tick);
        }
    }

    /// Resolves `action` against the member. Fresh rolls decide what the
    /// action leaves to chance, so the outcome is that of
    /// `receive_battle_action_with` for some rolls.
    pub fn receive_battle_action(
        &mut self,
        inventory: &mut Vec<InventoryElement>,
        notification: &mut Option<Notification>,
        action_parameters: &ActionParameters,
        tick: usize,
    )
        requires
            old(self).wf(),
        ensures
            exists|rolls: ActionRolls|
                rolls.valid() && #[trigger] member_acted_on(
                    *old(self),
                    *final(self),
                    old(inventory)@,
                    final(inventory)@,
                    slot_view(*old(notification)),
                    slot_view(*final(notification)),
                    *action_parameters,
                    tick,
                    rolls,
                ),
            final(self).wf(),
            final(inventory)@.len() == old(inventory)@.len(),
    {
        let rolls = crate::battle::state::draw_action_rolls();
        self.receive_battle_action_with(inventory, notification, action_parameters, tick, rolls);
        assert(member_acted_on(
            *old(self),
            *self,
            old(inventory)@,
            inventory@,
            slot_view(*old(notification)),
            slot_view(*notification),
            *action_parameters,
            tick,
            rolls,
        ));
    }

    pub fn get_avatar(&self) -> (file: String)
        ensures
            file@ == self.avatar_spritefile@,
    {
        self.avatar_spritefile.clone()
    }

    pub fn get_attack_ability(&self) -> (ability: (String, OnClickEvent))
        ensures
            ability.0@ == self.attack_ability.0@,
            ability.1 == self.attack_ability.1,
    {
        (self.attack_ability.0.clone(), self.attack_ability.1)
    }

    pub fn get_primary_ability(&self) -> (ability: (String, OnClickEvent))
        ensures
            ability.0@ == self.primary_ability.0@,
            ability.1 == self.primary_ability.1,
    {
        (self.primary_ability.0.clone(), self.primary_ability.1)
    }

    pub fn get_secondary_ability(&self) -> (ability: (String, OnClickEvent))
        ensures
            ability.0@ == self.secondary_ability.0@,
            ability.1 == self.secondary_ability.1,
    {
        (self.secondary_ability.0.clone(), self.secondary_ability.1)
    }
}

/// Whether resolving `action` on `tick`, decided by `rolls`, led from the one
/// member, inventory and banner to the other.
pub open spec fn member_acted_on(
    before: Character,
    after: Character,
    inventory_before: Seq<InventoryElement>,
    inventory_after: Seq<InventoryElement>,
    banner_before: Option<Banner>,
    banner_after: Option<Banner>,
    action: ActionParameters,
    tick: usize,
    rolls: ActionRolls,
) -> bool {
    &&& after == before.after_action(action, inventory_before, tick, rolls)
    &&& inventory_after == before.state.inventory_after_resolve(action, inventory_before, rolls)
    &&& banner_after == before.state.banner_after_resolve(
        action,
        inventory_before,
        banner_before,
        before.name@,
        rolls,
    )
}

/// The turn protocol, as a party member keeps it. A member takes the turn up
/// only on a tick on which the token names it; it gives the token up only
/// at the end of its step back, and lets go of the turn on that same tick;
/// and it never hands the token to anybody.
pub proof fn lemma_member_keeps_turn_protocol(member: Character, tick: usize, current_turn: u8)
    ensures
        ({
            let after = member.after_update(tick, current_turn);
            let token = member.token_after_update(tick, current_turn);
            &&& after.state.turn_active && !member.state.turn_active ==> current_turn
                == member.state.id
            &&& token == current_turn || token == 0
            &&& token != current_turn ==> !after.state.turn_active
            &&& after.state.id == member.state.id
        }),
{
}

} // verus!
