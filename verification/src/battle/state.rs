//! One combatant's battle data and the rules that change it: time-bar
//! accrual, damage and healing, status rolls and end-of-turn status ticking.

use crate::battle::action::{ActionParameters, DamageType, SideEffect};
use crate::battle::print_damage::{NumberColor, PrintDamage, PRINT_DAMAGE_TICKS};
use crate::dice::{roll, valid_roll};
use crate::menu::notification::{fresh_banner, post, slot_view, Banner, Notification};
use crate::party::character_info::{CharacterInfo, StatusEffect};
use crate::party::item::InventoryItem;
use crate::party::{can_consume, consume, consumed, InventoryElement};
use crate::text::{decimal, push_decimal};
use vstd::prelude::*;
use vstd::string::StringExecFns;

verus! {

/// Status counter of an affliction that never wears off.
pub const PERMANENT_AFFLICTION: i8 = 126;

/// Status counter of an immunity that never wears off.
pub const PERMANENT_IMMUNITY: i8 = -125;

/// Turns a fresh poisoning lasts.
pub const POISON_TURNS: i8 = 5;

/// Turns a fresh sleep lasts.
pub const SLEEP_TURNS: i8 = 3;

/// Ticks between two steps of the time bar.
pub const ATB_SUBTICKS: u8 = 5;

/// The rolls that decide an action's instant kill, poisoning and sleep.
#[derive(Clone, Copy, Debug, PartialEq, Eq, Structural)]
pub struct StatusRolls {
    pub dead: u32,
    pub poison: u32,
    pub sleep: u32,
}

impl StatusRolls {
    /// Each of the three is a roll.
    pub open spec fn valid(self) -> bool {
        valid_roll(self.dead) && valid_roll(self.poison) && valid_roll(self.sleep)
    }
}

/// All the rolls the resolution of one action can call for: the three
/// status rolls and the one that decides a theft.
#[derive(Clone, Copy, Debug, PartialEq, Eq, Structural)]
pub struct ActionRolls {
    pub status: StatusRolls,
    pub steal: u32,
}

impl ActionRolls {
    /// Each of the four is a roll.
    pub open spec fn valid(self) -> bool {
        self.status.valid() && valid_roll(self.steal)
    }
}

/// What resolving an action came to.
#[derive(Clone, Copy, Debug, PartialEq, Eq, Structural)]
pub enum ResolvedEffect {
    /// A side effect ran; the target itself is as it was.
    SideEffect,
    /// One unit of the item was used up and its effect applied.
    ItemUsed,
    /// No unit of the item was left, so nothing happened.
    ItemExhausted,
    /// The target was healed.
    Healed,
    /// The target was hit.
    Hit,
}

/// A combatant's battle data.
///
/// `poisoned` and `sleeping` count turns: a positive counter is that many
/// turns of affliction left, a negative one that many turns of immunity,
/// zero is neither; `PERMANENT_AFFLICTION` and `PERMANENT_IMMUNITY` do not
/// count down. A combatant with no hit points is dead. A combatant with a
/// badge row, `character_info`, is a party member; one without is an enemy.
#[derive(Clone, Copy, Debug)]
pub struct BattleState {
    pub id: u8,
    pub level: u8,
    pub experience: u32,
    pub max_hp: u16,
    pub max_mp: u16,
    pub hp: u16,
    pub mp: u16,
    pub attack: u16,
    pub defence: u16,
    pub magic: u16,
    pub resistance: u16,
    pub agility: u8,
    pub atb: u8,
    pub atb_subtick: u8,
    pub turn_active: bool,
    pub poisoned: i8,
    pub sleeping: i8,
    pub back_row: bool,
    pub common_steal: Option<InventoryItem>,
    pub rare_steal: Option<InventoryItem>,
    pub character_info: Option<CharacterInfo>,
    pub print_damage: Option<PrintDamage>,
}

/// A status counter after its owner's turn: one step nearer to zero, unless
/// it is zero already or permanent.
pub open spec fn status_ticked(counter: i8) -> i8 {
    if counter > 0 && counter != PERMANENT_AFFLICTION {
        (counter - 1) as i8
    } else if counter < 0 && counter != PERMANENT_IMMUNITY {
        (counter + 1) as i8
    } else {
        counter
    }
}

/// Whether a status counter reaches zero at the end of this turn.
pub open spec fn status_ends(counter: i8) -> bool {
    counter != 0 && status_ticked(counter) == 0
}

/// Whether poison takes its toll at the end of this turn.
pub open spec fn poison_bites(counter: i8) -> bool {
    counter > 0 && counter != PERMANENT_AFFLICTION
}

/// What poison takes at the end of a turn: a twentieth of the hit points
/// left, rounded down, but never less than one.
pub open spec fn poison_damage(hp: u16) -> int {
    if hp / 20 >= 1 {
        hp as int / 20
    } else {
        1
    }
}

/// `hp` less `damage`, but not below zero.
pub open spec fn hp_after_hit(hp: u16, damage: int) -> u16 {
    if damage >= hp {
        0
    } else if damage <= 0 {
        hp
    } else {
        (hp - damage) as u16
    }
}

/// The badge row after `effect` was pinned, where there is a row.
pub open spec fn info_with(info: Option<CharacterInfo>, pin: bool, effect: StatusEffect) -> Option<
    CharacterInfo,
> {
    match info {
        Some(i) => if pin {
            Some(i.with_effect(effect))
        } else {
            info
        },
        None => None,
    }
}

/// The badge row after `effect` was taken down, where there is a row.
pub open spec fn info_without(
    info: Option<CharacterInfo>,
    unpin: bool,
    effect: StatusEffect,
) -> Option<CharacterInfo> {
    match info {
        Some(i) => if unpin {
            Some(i.without_effect(effect))
        } else {
            info
        },
        None => None,
    }
}

/// The line reported when poison takes its toll.
pub open spec fn poison_message(name: Seq<char>, damage: nat) -> Seq<char> {
    name + " took "@ + decimal(damage) + " poison damage"@
}

/// The line reported when an action newly afflicts its target.
pub open spec fn affliction_message(name: Seq<char>, poisoned: bool, asleep: bool) -> Seq<char> {
    if poisoned && asleep {
        name + " is"@ + " poisoned"@ + " and"@ + " fell asleep"@
    } else if poisoned {
        name + " is"@ + " poisoned"@
    } else {
        name + " is"@ + " fell asleep"@
    }
}

impl BattleState {
    /// Hit and magic points are within their maxima, defence and resistance
    /// can be divided by, the time bar's sub-counter is within its period and
    /// the badge row, if any, is in order.
    pub open spec fn wf(self) -> bool {
        &&& self.hp <= self.max_hp
        &&& self.mp <= self.max_mp
        &&& self.defence > 0
        &&& self.resistance > 0
        &&& self.atb_subtick < ATB_SUBTICKS
        &&& (self.character_info matches Some(info) ==> info.wf())
    }

    // ----- time bar -----

    /// Whether the combatant is kept from filling its time bar: it is dead,
    /// or it is a party member and asleep.
    pub open spec fn rests(self) -> bool {
        self.hp == 0 || (self.character_info is Some && self.sleeping > 0)
    }

    /// Whether the time bar fills this tick: nobody holds the turn and the
    /// combatant does not rest.
    pub open spec fn accrues(self, current_turn: u8) -> bool {
        !self.rests() && current_turn == 0
    }

    /// Whether this tick is one on which the bar steps by `agility`.
    pub open spec fn steps(self, current_turn: u8) -> bool {
        self.accrues(current_turn) && self.atb_subtick + 1 == ATB_SUBTICKS
    }

    /// Whether the bar runs over this tick, which makes the combatant ready
    /// to act.
    pub open spec fn becomes_ready(self, current_turn: u8) -> bool {
        self.steps(current_turn) && self.atb + self.agility > u8::MAX
    }

    /// The floating number one tick later: counted down while it has time
    /// left, then taken away.
    pub open spec fn number_ticked(number: Option<PrintDamage>) -> Option<PrintDamage> {
        match number {
            Some(p) => if p.show_time > 0 {
                Some(p.ticked())
            } else {
                None
            },
            None => None,
        }
    }

    /// The state one tick later.
    ///
    /// A combatant that rests, being dead or a party member asleep, has its
    /// bar emptied. Otherwise, while nobody holds the turn, every
    /// `ATB_SUBTICKS`-th tick adds `agility` to the bar; a bar that would run
    /// over is emptied instead. While somebody holds the turn the bar stands
    /// still.
    pub open spec fn after_update(self, current_turn: u8) -> BattleState {
        let number = Self::number_ticked(self.print_damage);
        if self.rests() {
            BattleState { atb: 0, atb_subtick: 0, print_damage: number, ..self }
        } else if current_turn == 0 {
            if self.atb_subtick + 1 == ATB_SUBTICKS {
                BattleState {
                    atb: if self.atb + self.agility > u8::MAX {
                        0
                    } else {
                        (self.atb + self.agility) as u8
                    },
                    atb_subtick: 0,
                    print_damage: number,
                    ..self
                }
            } else {
                BattleState {
                    atb_subtick: (self.atb_subtick + 1) as u8,
                    print_damage: number,
                    ..self
                }
            }
        } else {
            BattleState { print_damage: number, ..self }
        }
    }

    // ----- end of turn -----

    /// The state after the combatant's own turn has ended: poison takes its
    /// toll, both status counters step towards zero, a status that ends
    /// loses its badge, and the time bar is emptied.
    pub open spec fn after_end_turn(self) -> BattleState {
        let bitten = poison_bites(self.poisoned);
        let damage = poison_damage(self.hp);
        let info = info_without(
            info_without(self.character_info, status_ends(self.poisoned), StatusEffect::Poison),
            status_ends(self.sleeping),
            StatusEffect::Sleep,
        );
        BattleState {
            hp: if bitten {
                hp_after_hit(self.hp, damage)
            } else {
                self.hp
            },
            poisoned: status_ticked(self.poisoned),
            sleeping: status_ticked(self.sleeping),
            character_info: info,
            print_damage: if bitten {
                Some(
                    PrintDamage {
                        value: damage as u32,
                        color: NumberColor::White,
                        show_time: PRINT_DAMAGE_TICKS,
                    },
                )
            } else {
                self.print_damage
            },
            atb: 0,
            ..self
        }
    }

    /// The banner after the combatant's own turn has ended: it tells the
    /// poison damage if poison took its toll, and is untouched otherwise.
    pub open spec fn banner_after_end_turn(self, banner: Option<Banner>, name: Seq<char>) -> Option<
        Banner,
    > {
        if poison_bites(self.poisoned) {
            fresh_banner(poison_message(name, poison_damage(self.hp) as nat))
        } else {
            banner
        }
    }

    // ----- damage -----

    /// The damage an action computes against this combatant, before it is
    /// held against the hit points left: three times the power, divided
    /// (rounding down) by the defence for a physical action and by the
    /// resistance for a magical one, undivided for a pure one, and nothing
    /// for any other formula.
    pub open spec fn damage_from(self, action: ActionParameters) -> int {
        match action.damage_type {
            DamageType::Physical => (action.power * 3) / (self.defence as int),
            DamageType::Magical => (action.power * 3) / (self.resistance as int),
            DamageType::Pure => action.power * 3,
            _ => 0,
        }
    }

    /// Whether the action newly poisons: the combatant is not immune and the
    /// roll succeeds.
    pub open spec fn poison_lands(self, action: ActionParameters, rolls: StatusRolls) -> bool {
        self.poisoned >= 0 && action.poison_change.hits(rolls.poison)
    }

    /// Whether the action newly puts to sleep: the combatant is not immune
    /// and the roll succeeds.
    pub open spec fn sleep_lands(self, action: ActionParameters, rolls: StatusRolls) -> bool {
        self.sleeping >= 0 && action.sleep_change.hits(rolls.sleep)
    }

    /// The state after an action has hit, given the three rolls.
    ///
    /// The damage comes off the hit points, which stop at zero; a successful
    /// instant-kill roll empties them whatever the damage was. A status that
    /// lands starts its full duration anew, also on a combatant that already
    /// suffers it, and gets a badge if the counter stood at zero. The damage
    /// floats over the combatant.
    pub open spec fn after_damage(self, action: ActionParameters, rolls: StatusRolls) -> BattleState {
        let damage = self.damage_from(action);
        let poison = self.poison_lands(action, rolls);
        let sleep = self.sleep_lands(action, rolls);
        BattleState {
            hp: if action.dead_change.hits(rolls.dead) {
                0
            } else {
                hp_after_hit(self.hp, damage)
            },
            poisoned: if poison {
                POISON_TURNS
            } else {
                self.poisoned
            },
            sleeping: if sleep {
                SLEEP_TURNS
            } else {
                self.sleeping
            },
            character_info: info_with(
                info_with(self.character_info, poison && self.poisoned == 0, StatusEffect::Poison),
                sleep && self.sleeping == 0,
                StatusEffect::Sleep,
            ),
            print_damage: Some(
                PrintDamage {
                    value: damage as u32,
                    color: NumberColor::White,
                    show_time: PRINT_DAMAGE_TICKS,
                },
            ),
            ..self
        }
    }

    /// The banner after an action has hit: it names the statuses that
    /// landed, and is untouched if none did.
    pub open spec fn banner_after_damage(
        self,
        banner: Option<Banner>,
        name: Seq<char>,
        action: ActionParameters,
        rolls: StatusRolls,
    ) -> Option<Banner> {
        let poison = self.poison_lands(action, rolls);
        let sleep = self.sleep_lands(action, rolls);
        if poison || sleep {
            fresh_banner(affliction_message(name, poison, sleep))
        } else {
            banner
        }
    }

    // ----- the pipeline -----

    /// What resolving `action` comes to, which depends on the inventory only
    /// for an item.
    pub open spec fn effect_of(action: ActionParameters, inventory: Seq<InventoryElement>) -> ResolvedEffect {
        match action.damage_type {
            DamageType::Effect(_) => ResolvedEffect::SideEffect,
            DamageType::Item(item) => if can_consume(inventory, item) {
                ResolvedEffect::ItemUsed
            } else {
                ResolvedEffect::ItemExhausted
            },
            DamageType::Healing => ResolvedEffect::Healed,
            _ => ResolvedEffect::Hit,
        }
    }

    /// The combatant after `action` was resolved against it.
    ///
    /// A side effect leaves it as it was. An item is applied if a unit of it
    /// can be used up, and does nothing otherwise. Healing heals. Every
    /// other formula hits.
    pub open spec fn resolved(
        self,
        action: ActionParameters,
        inventory: Seq<InventoryElement>,
        rolls: ActionRolls,
    ) -> BattleState {
        match action.damage_type {
            DamageType::Effect(_) => self,
            DamageType::Item(item) => if can_consume(inventory, item) {
                item.applied(self, true)
            } else {
                self
            },
            DamageType::Healing => self.after_healing(action),
            _ => self.after_damage(action, rolls.status),
        }
    }

    /// The inventory after `action` was resolved against this combatant: a
    /// theft may add to it, an item's use takes one unit of the item away.
    pub open spec fn inventory_after_resolve(
        self,
        action: ActionParameters,
        inventory: Seq<InventoryElement>,
        rolls: ActionRolls,
    ) -> Seq<InventoryElement> {
        match action.damage_type {
            DamageType::Effect(SideEffect::Steal) => crate::battle::steal::inventory_after_theft(
                self,
                rolls.steal,
                inventory,
            ),
            DamageType::Item(item) => consumed(inventory, item),
            _ => inventory,
        }
    }

    /// The banner after `action` was resolved against this combatant.
    pub open spec fn banner_after_resolve(
        self,
        action: ActionParameters,
        inventory: Seq<InventoryElement>,
        banner: Option<Banner>,
        name: Seq<char>,
        rolls: ActionRolls,
    ) -> Option<Banner> {
        match action.damage_type {
            DamageType::Effect(SideEffect::Nothing) => banner,
            DamageType::Effect(SideEffect::Steal) => crate::battle::steal::banner_after_theft(
                self,
                rolls.steal,
                inventory,
                banner,
            ),
            DamageType::Item(item) => if can_consume(inventory, item) {
                fresh_banner(item.name())
            } else {
                fresh_banner("Nothing happened"@)
            },
            DamageType::Healing => banner,
            _ => self.banner_after_damage(banner, name, action, rolls.status),
        }
    }

    // ----- healing -----

    /// What a healing action restores: its power times the magic of the one
    /// being healed.
    pub open spec fn heal_from(self, action: ActionParameters) -> int {
        action.power * self.magic
    }

    /// The state after a healing action: the hit points rise by the amount
    /// healed, but not above the maximum, and the amount floats over the
    /// combatant.
    pub open spec fn after_healing(self, action: ActionParameters) -> BattleState {
        let heal = self.heal_from(action);
        BattleState {
            hp: if self.hp + heal >= self.max_hp {
                self.max_hp
            } else {
                (self.hp + heal) as u16
            },
            print_damage: Some(
                PrintDamage {
                    value: heal as u32,
                    color: NumberColor::Green,
                    show_time: PRINT_DAMAGE_TICKS,
                },
            ),
            ..self
        }
    }
}

/// Whether an action that hits, decided by `rolls`, led from the one
/// combatant and banner to the other.
pub open spec fn damage_resolved(
    before: BattleState,
    after: BattleState,
    banner_before: Option<Banner>,
    banner_after: Option<Banner>,
    name: Seq<char>,
    action: ActionParameters,
    rolls: StatusRolls,
) -> bool {
    &&& after == before.after_damage(action, rolls)
    &&& banner_after == before.banner_after_damage(banner_before, name, action, rolls)
}

/// Whether resolving `action`, decided by `rolls`, led from the one
/// combatant, inventory and banner to the other.
pub open spec fn action_resolved(
    before: BattleState,
    after: BattleState,
    inventory_before: Seq<InventoryElement>,
    inventory_after: Seq<InventoryElement>,
    banner_before: Option<Banner>,
    banner_after: Option<Banner>,
    name: Seq<char>,
    action: ActionParameters,
    rolls: ActionRolls,
) -> bool {
    &&& after == before.resolved(action, inventory_before, rolls)
    &&& inventory_after == before.inventory_after_resolve(action, inventory_before, rolls)
    &&& banner_after == before.banner_after_resolve(
        action,
        inventory_before,
        banner_before,
        name,
        rolls,
    )
}

/// Draws the rolls for one action.
pub fn draw_action_rolls() -> (rolls: ActionRolls)
    ensures
        rolls.valid(),
{
    let dead = roll();
    let poison = roll();
    let sleep = roll();
    let steal = roll();
    ActionRolls { status: StatusRolls { dead, poison, sleep }, steal }
}

impl BattleState {
    /// A combatant entering battle at full hit and magic points, with an
    /// empty time bar and no floating number.
    ///
    /// Defence and resistance are divisors of the damage formulas, so a
    /// definition with either at zero is not a combatant.
    pub fn new(
        id: u8,
        level: u8,
        hp: u16,
        mp: u16,
        attack: u16,
        defence: u16,
        magic: u16,
        resistance: u16,
        agility: u8,
        experience: u32,
        poisoned: i8,
        sleeping: i8,
        back_row: bool,
        common_steal: Option<InventoryItem>,
        rare_steal: Option<InventoryItem>,
        character_info: Option<CharacterInfo>,
    ) -> (state: BattleState)
        requires
            defence > 0,
            resistance > 0,
            character_info matches Some(info) ==> info.wf(),
        ensures
            state.wf(),
            state == (BattleState {
                id,
                level,
                experience,
                max_hp: hp,
                max_mp: mp,
                hp,
                mp,
                attack,
                defence,
                magic,
                resistance,
                agility,
                atb: 0,
                atb_subtick: 0,
                turn_active: false,
                poisoned,
                sleeping,
                back_row,
                common_steal,
                rare_steal,
                character_info,
                print_damage: None,
            }),
    {
        BattleState {
            id,
            level,
            experience,
            max_hp: hp,
            max_mp: mp,
            hp,
            mp,
            attack,
            defence,
            magic,
            resistance,
            agility,
            atb: 0,
            atb_subtick: 0,
            turn_active: false,
            poisoned,
            sleeping,
            back_row,
            common_steal,
            rare_steal,
            character_info,
            print_damage: None,
        }
    }

    /// Tests `wf`, for callers that built or changed a state by hand.
    pub fn is_well_formed(&self) -> (ok: bool)
        ensures
            ok == self.wf(),
    {
        let info_ok = match self.character_info {
            Some(info) => {
                let packed = info.first.is_some() || info.second.is_none();
                let distinct = match (info.first, info.second) {
                    (Some(a), Some(b)) => a != b,
                    _ => true,
                };
                packed && distinct
            },
            None => true,
        };
        self.hp <= self.max_hp && self.mp <= self.max_mp && self.defence > 0 && self.resistance
            > 0 && self.atb_subtick < ATB_SUBTICKS && info_ok
    }

    /// Lets one tick pass: steps the time bar and counts the floating number
    /// down. A combatant whose bar runs over is put on the end of
    /// `active_turns`, the queue of those ready to act.
    pub fn update(&mut self, current_turn: &mut u8, active_turns: &mut Vec<u8>)
        requires
            old(self).wf(),
        ensures
            *final(self) == old(self).after_update(*old(current_turn)),
            final(self).wf(),
            *final(current_turn) == *old(current_turn),
            final(active_turns)@ == if old(self).becomes_ready(*old(current_turn)) {
                old(active_turns)@.push(old(self).id)
            } else {
                old(active_turns)@
            },
    {
        if self.hp == 0 || (self.character_info.is_some() && self.sleeping > 0) {
            self.atb = 0;
            self.atb_subtick = 0;
        } else if *current_turn == 0 {
            self.atb_subtick = self.atb_subtick + 1;
            if self.atb_subtick == ATB_SUBTICKS {
                self.atb_subtick = 0;
                match self.atb.checked_add(self.agility) {
                    Some(sum) => {
                        self.atb = sum;
                    },
                    None => {
                        active_turns.push(self.id);
                        self.atb = 0;
                    },
                }
            }
        }
        match self.print_damage {
            Some(number) => {
                if number.show_time > 0 {
                    let mut next = number;
                    next.update();
                    self.print_damage = Some(next);
                } else {
                    self.print_damage = None;
                }
            },
            None => {},
        }
    }

    /// Ends the combatant's own turn: see `after_end_turn`. `name` is the
    /// name the report calls the combatant by.
    pub fn end_turn(&mut self, notification: &mut Option<Notification>, name: &String)
        requires
            old(self).wf(),
        ensures
            *final(self) == old(self).after_end_turn(),
            slot_view(*final(notification)) == old(self).banner_after_end_turn(
                slot_view(*old(notification)),
                name@,
            ),
            final(self).wf(),
            final(self).hp <= old(self).hp,
    {
        let ghost before = *self;
        if self.poisoned > 0 && self.poisoned != PERMANENT_AFFLICTION {
            self.poisoned = self.poisoned - 1;
            let by_share: u16 = self.hp / 20;
            let damage: u16 = if by_share >= 1 {
                by_share
            } else {
                1
            };
            let mut text = name.clone();
            text.append(" took ");
            push_decimal(&mut text, damage as u32);
            text.append(" poison damage");
            post(notification, text);
            self.hp = if damage >= self.hp {
                0
            } else {
                self.hp - damage
            };
            self.print_damage = Some(PrintDamage::new(damage as u32, NumberColor::White));
            if self.poisoned == 0 {
                match &mut self.character_info {
                    Some(info) => {
                        info.remove_effect(StatusEffect::Poison);
                    },
                    None => {},
                }
            }
        } else if self.poisoned < 0 && self.poisoned != PERMANENT_IMMUNITY {
            self.poisoned = self.poisoned + 1;
            if self.poisoned == 0 {
                match &mut self.character_info {
                    Some(info) => {
                        info.remove_effect(StatusEffect::Poison);
                    },
                    None => {},
                }
            }
        }
        proof {
            if let Some(info) = before.character_info {
                crate::party::character_info::lemma_badge_round_trip(
                    info,
                    StatusEffect::Poison,
                    StatusEffect::Sleep,
                );
            }
        }
        if self.sleeping > 0 && self.sleeping != PERMANENT_AFFLICTION {
            self.sleeping = self.sleeping - 1;
            if self.sleeping == 0 {
                match &mut self.character_info {
                    Some(info) => {
                        info.remove_effect(StatusEffect::Sleep);
                    },
                    None => {},
                }
            }
        } else if self.sleeping < 0 && self.sleeping != PERMANENT_IMMUNITY {
            self.sleeping = self.sleeping + 1;
            if self.sleeping == 0 {
                match &mut self.character_info {
                    Some(info) => {
                        info.remove_effect(StatusEffect::Sleep);
                    },
                    None => {},
                }
            }
        }
        self.atb = 0;
    }

    /// The damage `action` computes against this combatant.
    pub fn compute_damage(&self, action_parameters: &ActionParameters) -> (damage: u32)
        requires
            self.wf(),
        ensures
            damage == self.damage_from(*action_parameters),
    {
        let tripled: u32 = action_parameters.power as u32 * 3;
        match action_parameters.damage_type {
            DamageType::Physical => tripled / self.defence as u32,
            DamageType::Magical => tripled / self.resistance as u32,
            DamageType::Pure => tripled,
            _ => 0,
        }
    }

    /// Resolves an action that hits, with the rolls given: see
    /// `after_damage` for the combatant and `banner_after_damage` for the banner.
    pub fn apply_damage(
        &mut self,
        notification: &mut Option<Notification>,
        name: &String,
        action_parameters: &ActionParameters,
        rolls: StatusRolls,
    )
        requires
            old(self).wf(),
        ensures
            *final(self) == old(self).after_damage(*action_parameters, rolls),
            slot_view(*final(notification)) == old(self).banner_after_damage(
                slot_view(*old(notification)),
                name@,
                *action_parameters,
                rolls,
            ),
            final(self).wf(),
            final(self).hp <= old(self).hp,
            action_parameters.dead_change.hits(rolls.dead) ==> final(self).hp == 0,
    {
        let ghost before = *self;
        let damage = self.compute_damage(action_parameters);
        self.hp = if damage >= self.hp as u32 {
            0
        } else {
            self.hp - damage as u16
        };
        if action_parameters.dead_change.is_hit(rolls.dead) {
            self.hp = 0;
        }
        let poison = self.poisoned >= 0 && action_parameters.poison_change.is_hit(rolls.poison);
        if poison {
            if self.poisoned == 0 {
                match &mut self.character_info {
                    Some(info) => {
                        info.set_effect(StatusEffect::Poison);
                    },
                    None => {},
                }
            }
            self.poisoned = POISON_TURNS;
        }
        let sleep = self.sleeping >= 0 && action_parameters.sleep_change.is_hit(rolls.sleep);
        if sleep {
            if self.sleeping == 0 {
                match &mut self.character_info {
                    Some(info) => {
                        info.set_effect(StatusEffect::Sleep);
                    },
                    None => {},
                }
            }
            self.sleeping = SLEEP_TURNS;
        }
        if poison || sleep {
            let mut text = name.clone();
            text.append(" is");
            if poison {
                text.append(" poisoned");
            }
            if poison && sleep {
                text.append(" and");
            }
            if sleep {
                text.append(" fell asleep");
            }
            post(notification, text);
        }
        self.print_damage = Some(PrintDamage::new(damage, NumberColor::White));
        proof {
            if let Some(info) = before.character_info {
                crate::party::character_info::lemma_badge_round_trip(
                    info,
                    StatusEffect::Poison,
                    StatusEffect::Sleep,
                );
            }
        }
    }

    /// Resolves an action that hits. The instant kill, the poisoning and the
    /// sleep are each decided by a fresh roll, so the outcome is that of
    /// `apply_damage` for some three rolls.
    pub fn receive_damage(
        &mut self,
        notification: &mut Option<Notification>,
        name: &String,
        action_parameters: &ActionParameters,
    )
        requires
            old(self).wf(),
        ensures
            exists|rolls: StatusRolls|
                rolls.valid() && #[trigger] damage_resolved(
                    *old(self),
                    *final(self),
                    slot_view(*old(notification)),
                    slot_view(*final(notification)),
                    name@,
                    *action_parameters,
                    rolls,
                ),
            final(self).wf(),
            final(self).hp <= old(self).hp,
            action_parameters.dead_change.is_certain() ==> final(self).hp == 0,
    {
        let dead = roll();
        let poison = if self.poisoned >= 0 {
            roll()
        } else {
            0
        };
        let sleep = if self.sleeping >= 0 {
            roll()
        } else {
            0
        };
        let rolls = StatusRolls { dead, poison, sleep };
        self.apply_damage(notification, name, action_parameters, rolls);
        assert(damage_resolved(
            *old(self),
            *self,
            slot_view(*old(notification)),
            slot_view(*notification),
            name@,
            *action_parameters,
            rolls,
        ));
    }

    /// Resolves a healing action: see `after_healing`.
    pub fn receive_healing(&mut self, action_parameters: &ActionParameters)
        requires
            old(self).wf(),
        ensures
            *final(self) == old(self).after_healing(*action_parameters),
            final(self).wf(),
            final(self).hp >= old(self).hp,
    {
        assert(action_parameters.power * self.magic <= 0xffff * 0xffff) by (nonlinear_arith)
            requires
                action_parameters.power <= 0xffff,
                self.magic <= 0xffff,
        ;
        let heal: u32 = action_parameters.power as u32 * self.magic as u32;
        let sum: u64 = self.hp as u64 + heal as u64;
        self.hp = if sum >= self.max_hp as u64 {
            self.max_hp
        } else {
            sum as u16
        };
        self.print_damage = Some(PrintDamage::new(heal, NumberColor::Green));
    }

    /// Resolves an action that has no damage formula. `SideEffect::Nothing`
    /// leaves the combatant, the inventory and the banner exactly as they
    /// were; `SideEffect::Steal` is an attempt at theft against this
    /// combatant, decided by a fresh roll. Neither changes the combatant.
    pub fn receive_none_type_action(
        &mut self,
        inventory: &mut Vec<InventoryElement>,
        action_parameters: &ActionParameters,
        action: SideEffect,
        notification: &mut Option<Notification>,
    )
        ensures
            *final(self) == *old(self),
            final(inventory)@.len() == old(inventory)@.len(),
            action is Nothing ==> *final(inventory) == *old(inventory) && *final(notification)
                == *old(notification),
            action is Steal ==> exists|r: u32|
                valid_roll(r) && #[trigger] crate::battle::steal::theft_resolved(
                    *old(self),
                    r,
                    old(inventory)@,
                    final(inventory)@,
                    slot_view(*old(notification)),
                    slot_view(*final(notification)),
                ),
    {
        match action {
            SideEffect::Nothing => {},
            SideEffect::Steal => {
                crate::battle::steal::steal_action(inventory, self, notification);
            },
        }
    }

    /// Resolves `action` against this combatant with the rolls given: see
    /// `resolved`, `inventory_after_resolve` and `banner_after_resolve`.
    pub fn resolve_with(
        &mut self,
        inventory: &mut Vec<InventoryElement>,
        notification: &mut Option<Notification>,
        name: &String,
        action_parameters: &ActionParameters,
        rolls: ActionRolls,
    ) -> (effect: ResolvedEffect)
        requires
            old(self).wf(),
        ensures
            *final(self) == old(self).resolved(*action_parameters, old(inventory)@, rolls),
            final(inventory)@ == old(self).inventory_after_resolve(
                *action_parameters,
                old(inventory)@,
                rolls,
            ),
            slot_view(*final(notification)) == old(self).banner_after_resolve(
                *action_parameters,
                old(inventory)@,
                slot_view(*old(notification)),
                name@,
                rolls,
            ),
            effect == Self::effect_of(*action_parameters, old(inventory)@),
            final(self).wf(),
            final(inventory)@.len() == old(inventory)@.len(),
    {
        match action_parameters.damage_type {
            DamageType::Effect(side_effect) => {
                match side_effect {
                    SideEffect::Nothing => {},
                    SideEffect::Steal => {
                        crate::battle::steal::steal_with(inventory, self, notification, rolls.steal);
                    },
                }
                ResolvedEffect::SideEffect
            },
            DamageType::Item(item) => {
                if consume(inventory, &item) {
                    post(notification, item.get_name());
                    item.apply_item_effect(self, true);
                    ResolvedEffect::ItemUsed
                } else {
                    post(notification, "Nothing happened".to_owned());
                    ResolvedEffect::ItemExhausted
                }
            },
            DamageType::Healing => {
                self.receive_healing(action_parameters);
                ResolvedEffect::Healed
            },
            _ => {
                self.apply_damage(notification, name, action_parameters, rolls.status);
                ResolvedEffect::Hit
            },
        }
    }

    /// Resolves `action` against this combatant. Whatever the action leaves
    /// to chance is decided by fresh rolls, so the outcome is that of
    /// `resolve_with` for some rolls.
    pub fn resolve(
        &mut self,
        inventory: &mut Vec<InventoryElement>,
        notification: &mut Option<Notification>,
        name: &String,
        action_parameters: &ActionParameters,
    ) -> (effect: ResolvedEffect)
        requires
            old(self).wf(),
        ensures
            exists|rolls: ActionRolls|
                rolls.valid() && #[trigger] action_resolved(
                    *old(self),
                    *final(self),
                    old(inventory)@,
                    final(inventory)@,
                    slot_view(*old(notification)),
                    slot_view(*final(notification)),
                    name@,
                    *action_parameters,
                    rolls,
                ),
            effect == Self::effect_of(*action_parameters, old(inventory)@),
            final(self).wf(),
            final(inventory)@.len() == old(inventory)@.len(),
    {
        let rolls = draw_action_rolls();
        let effect = self.resolve_with(inventory, notification, name, action_parameters, rolls);
        assert(action_resolved(
            *old(self),
            *self,
            old(inventory)@,
            inventory@,
            slot_view(*old(notification)),
            slot_view(*notification),
            name@,
            *action_parameters,
            rolls,
        ));
        effect
    }

    /// Where a number floating over this combatant is anchored, given where
    /// the combatant stands: forty pixels to the right for a party member,
    /// which has a badge row, and on the spot for anyone else. The shift
    /// stops at the largest coordinate.
    pub fn get_damage_position(&self, position: (i32, i32)) -> (anchor: (i32, i32))
        ensures
            anchor.1 == position.1,
            self.character_info is None ==> anchor.0 == position.0,
            self.character_info is Some ==> anchor.0 == if position.0 + 40 > i32::MAX {
                i32::MAX as int
            } else {
                position.0 + 40
            },
    {
        match self.character_info {
            Some(_) => {
                if position.0 > i32::MAX - 40 {
                    (i32::MAX, position.1)
                } else {
                    (position.0 + 40, position.1)
                }
            },
            None => position,
        }
    }
}

/// Every rule that changes a combatant leaves it well-formed, with hit and
/// magic points within their maxima; and no rule changes the size of the
/// inventory.
pub proof fn lemma_rules_keep_wf()
    ensures
        forall|s: BattleState, token: u8| s.wf() ==> (#[trigger] s.after_update(token)).wf(),
        forall|s: BattleState| s.wf() ==> (#[trigger] s.after_end_turn()).wf(),
        forall|s: BattleState, a: ActionParameters, r: StatusRolls|
            s.wf() ==> (#[trigger] s.after_damage(a, r)).wf(),
        forall|s: BattleState, a: ActionParameters| s.wf() ==> (#[trigger] s.after_healing(a)).wf(),
        forall|s: BattleState, a: ActionParameters, inv: Seq<InventoryElement>, r: ActionRolls|
            s.wf() ==> (#[trigger] s.resolved(a, inv, r)).wf(),
        forall|s: BattleState, a: ActionParameters, inv: Seq<InventoryElement>, r: ActionRolls|
            (#[trigger] s.inventory_after_resolve(a, inv, r)).len() == inv.len(),
{
    assert forall|s: BattleState, a: ActionParameters, inv: Seq<InventoryElement>, r: ActionRolls|
        (#[trigger] s.inventory_after_resolve(a, inv, r)).len() == inv.len() by {
        match a.damage_type {
            DamageType::Effect(SideEffect::Steal) => {
                if let Some(loot) = s.common_steal {
                    crate::party::lemma_stacks_stay(inv, loot, crate::party::item::STACK_CAP);
                }
                if let Some(loot) = s.rare_steal {
                    crate::party::lemma_stacks_stay(inv, loot, u8::MAX);
                }
            },
            DamageType::Item(item) => {
                crate::party::lemma_stacks_stay(inv, item, 0);
            },
            _ => {},
        }
    }
    assert forall|s: BattleState| s.wf() implies (#[trigger] s.after_end_turn()).wf() by {
        if let Some(info) = s.character_info {
            crate::party::character_info::lemma_badge_round_trip(
                info,
                StatusEffect::Poison,
                StatusEffect::Sleep,
            );
            crate::party::character_info::lemma_badge_round_trip(
                info.without_effect(StatusEffect::Poison),
                StatusEffect::Sleep,
                StatusEffect::Poison,
            );
        }
    }
    assert forall|s: BattleState, a: ActionParameters, r: StatusRolls| s.wf() implies (
    #[trigger] s.after_damage(a, r)).wf() by {
        if let Some(info) = s.character_info {
            crate::party::character_info::lemma_badge_round_trip(
                info,
                StatusEffect::Poison,
                StatusEffect::Sleep,
            );
            crate::party::character_info::lemma_badge_round_trip(
                info.with_effect(StatusEffect::Poison),
                StatusEffect::Sleep,
                StatusEffect::Poison,
            );
        }
    }
}

/// Hit points stop at zero. Damage that matches or exceeds the hit points
/// left leaves none; lesser damage leaves the difference, unless the
/// instant kill lands, which leaves none either way.
pub proof fn lemma_damage_stops_at_zero(s: BattleState, a: ActionParameters, r: StatusRolls)
    requires
        s.wf(),
    ensures
        s.damage_from(a) >= 0,
        s.damage_from(a) >= s.hp ==> s.after_damage(a, r).hp == 0,
        s.damage_from(a) < s.hp && !a.dead_change.hits(r.dead) ==> s.after_damage(a, r).hp
            == s.hp - s.damage_from(a),
        s.after_damage(a, r).hp <= s.hp,
        s.after_damage(a, r).max_hp == s.max_hp,
{
    assert(a.power * 3 >= 0);
    assert((a.power * 3) / (s.defence as int) >= 0) by (nonlinear_arith)
        requires
            a.power * 3 >= 0,
            s.defence > 0,
    ;
    assert((a.power * 3) / (s.resistance as int) >= 0) by (nonlinear_arith)
        requires
            a.power * 3 >= 0,
            s.resistance > 0,
    ;
}

/// An instant kill that is certain empties the hit points on every roll,
/// whatever damage the action computes; one that is impossible never adds
/// to the damage.
pub proof fn lemma_certain_death(s: BattleState, a: ActionParameters, r: StatusRolls)
    requires
        r.valid(),
    ensures
        a.dead_change.is_certain() ==> s.after_damage(a, r).hp == 0,
        a.dead_change.is_impossible() ==> s.after_damage(a, r).hp == hp_after_hit(
            s.hp,
            s.damage_from(a),
        ),
{
}

} // verus!
