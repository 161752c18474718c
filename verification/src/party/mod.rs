//! The party: its members and what they carry.

pub mod character;
pub mod character_info;
pub mod item;

use crate::battle::action::ActionParameters;
use crate::battle::animation::{elapsed, ticks_since};
use crate::battle::state::{ActionRolls, BattleState};
use crate::battle::turn::{turn_of, Turn};
use crate::battle::{Battle, BattleView};
use crate::menu::item::PartyTargets;
use crate::menu::notification::Notification;
use crate::party::character::{Animation, Character, CharacterEvent, Sprite, ATTACK_TICKS};
use crate::party::item::{InventoryItem, ItemVariant};
use vstd::prelude::*;

verus! {

/// A stack in the inventory: an item and how many units of it are left.
#[derive(Clone, Copy, Debug, PartialEq, Eq, Structural)]
pub enum InventoryElement {
    Item(InventoryItem, u8),
}

impl InventoryElement {
    /// The item the stack is of.
    pub open spec fn item(self) -> InventoryItem {
        self->0
    }

    /// The units left in the stack.
    pub open spec fn amount(self) -> u8 {
        self->1
    }
}

/// The place of the first stack of `item`'s name at or after `from`, or the
/// inventory's length if there is none.
pub open spec fn stack_from(inventory: Seq<InventoryElement>, item: InventoryItem, from: int) -> int
    decreases inventory.len() - from,
{
    if from < 0 || from >= inventory.len() {
        inventory.len() as int
    } else if inventory[from].item().name() == item.name() {
        from
    } else {
        stack_from(inventory, item, from + 1)
    }
}

/// The place of the first stack of `item`'s name, if the inventory has one.
pub open spec fn find_stack(inventory: Seq<InventoryElement>, item: InventoryItem) -> Option<int> {
    let i = stack_from(inventory, item, 0);
    if i < inventory.len() {
        Some(i)
    } else {
        None
    }
}

/// Whether one unit of `item` can be used up: its first stack has units left.
pub open spec fn can_consume(inventory: Seq<InventoryElement>, item: InventoryItem) -> bool {
    find_stack(inventory, item) matches Some(i) && inventory[i].amount() > 0
}

/// The inventory after one unit of `item` was used up, where that can be done.
pub open spec fn consumed(inventory: Seq<InventoryElement>, item: InventoryItem) -> Seq<
    InventoryElement,
> {
    match find_stack(inventory, item) {
        Some(i) => if inventory[i].amount() > 0 {
            inventory.update(
                i,
                InventoryElement::Item(inventory[i].item(), (inventory[i].amount() - 1) as u8),
            )
        } else {
            inventory
        },
        None => inventory,
    }
}

/// The inventory after one unit of `item` was put on its first stack, unless
/// there is no such stack or it already holds `cap` units or more.
pub open spec fn stocked(inventory: Seq<InventoryElement>, item: InventoryItem, cap: u8) -> Seq<
    InventoryElement,
> {
    match find_stack(inventory, item) {
        Some(i) => if inventory[i].amount() < cap {
            inventory.update(
                i,
                InventoryElement::Item(inventory[i].item(), (inventory[i].amount() + 1) as u8),
            )
        } else {
            inventory
        },
        None => inventory,
    }
}

/// What `stack_from` finds is the first stack of that name, and nothing
/// before it bears the name.
pub proof fn lemma_stack_from(inventory: Seq<InventoryElement>, item: InventoryItem, from: int)
    requires
        0 <= from <= inventory.len(),
    ensures
        from <= stack_from(inventory, item, from) <= inventory.len(),
        stack_from(inventory, item, from) < inventory.len() ==> inventory[stack_from(
            inventory,
            item,
            from,
        )].item().name() == item.name(),
        forall|k: int|
            from <= k < stack_from(inventory, item, from) ==> (#[trigger] inventory[k]).item().name()
                != item.name(),
    decreases inventory.len() - from,
{
    if from < inventory.len() && inventory[from].item().name() != item.name() {
        lemma_stack_from(inventory, item, from + 1);
    }
}

/// Using a unit up or putting one on a stack leaves the number of stacks as
/// it was.
pub proof fn lemma_stacks_stay(inventory: Seq<InventoryElement>, item: InventoryItem, cap: u8)
    ensures
        consumed(inventory, item).len() == inventory.len(),
        stocked(inventory, item, cap).len() == inventory.len(),
{
    lemma_stack_from(inventory, item, 0);
}

/// Finds the first stack of `item`'s name.
pub fn find_by_name(inventory: &Vec<InventoryElement>, item: &InventoryItem) -> (found: Option<
    usize,
>)
    ensures
        match found {
            Some(i) => find_stack(inventory@, *item) == Some(i as int) && i < inventory.len(),
            None => find_stack(inventory@, *item) is None,
        },
{
    let mut i: usize = 0;
    while i < inventory.len()
        invariant
            0 <= i <= inventory.len(),
            stack_from(inventory@, *item, 0) == stack_from(inventory@, *item, i as int),
        decreases inventory.len() - i,
    {
        let same = match &inventory[i] {
            InventoryElement::Item(stacked, _) => stacked.same_name(item),
        };
        if same {
            return Some(i);
        }
        i = i + 1;
    }
    None
}

/// Uses up one unit of `item` from its first stack, if that stack has any left.
pub fn consume(inventory: &mut Vec<InventoryElement>, item: &InventoryItem) -> (done: bool)
    ensures
        done == can_consume(old(inventory)@, *item),
        final(inventory)@ == consumed(old(inventory)@, *item),
        final(inventory)@.len() == old(inventory)@.len(),
{
    match find_by_name(inventory, item) {
        Some(i) => {
            let InventoryElement::Item(stacked, amount) = inventory[i];
            if amount > 0 {
                inventory[i] = InventoryElement::Item(stacked, amount - 1);
                true
            } else {
                false
            }
        },
        None => false,
    }
}

/// Puts one unit of `item` on its first stack, unless there is no such stack
/// or it already holds `cap` units or more. Says whether there is a stack.
pub fn stock(inventory: &mut Vec<InventoryElement>, item: &InventoryItem, cap: u8) -> (found: bool)
    ensures
        found == find_stack(old(inventory)@, *item).is_some(),
        final(inventory)@ == stocked(old(inventory)@, *item, cap),
        final(inventory)@.len() == old(inventory)@.len(),
{
    match find_by_name(inventory, item) {
        Some(i) => {
            let InventoryElement::Item(stacked, amount) = inventory[i];
            if amount < cap {
                inventory[i] = InventoryElement::Item(stacked, amount + 1);
            }
            true
        },
        None => false,
    }
}

/// `experience` and `gained` together, stopping at the most that can be
/// counted.
fn add_experience(experience: u32, gained: u64) -> (sum: u32)
    ensures
        sum == experience_sum(experience, gained as int),
{
    if gained > (u32::MAX - experience) as u64 {
        u32::MAX
    } else {
        experience + gained as u32
    }
}

/// Gives a member its share, if the member is there.
fn reward(member: &mut Character, share: u64)
    ensures
        *final(member) == rewarded(*old(member), share as int),
        old(member).wf() ==> final(member).wf(),
{
    if member.present() {
        member.state.experience = add_experience(member.state.experience, share);
    }
}

/// Shares `experience` among `alive` members: gives the share of each and
/// the experience as it is then shown.
fn share_out(experience: u32, alive: u32) -> (parts: (u64, u32))
    requires
        1 <= alive <= 4,
    ensures
        parts.0 == experience_share(experience, alive as int),
        parts.1 == experience_shown(experience, alive as int),
{
    let share: u64 = (experience as u64 + alive as u64 - 1) / alive as u64;
    assert(share <= 0x1_0000_0002);
    assert(share * alive <= 0x4_0000_0008) by (nonlinear_arith)
        requires
            share <= 0x1_0000_0002,
            1 <= alive <= 4,
    ;
    let shown: u64 = share * alive as u64;
    if shown > u32::MAX as u64 {
        (share, u32::MAX)
    } else {
        (share, shown as u32)
    }
}

/// The party: four slots for members, in fixed order, and the inventory.
pub struct Party {
    pub first: Character,
    pub second: Character,
    pub third: Character,
    pub fourth: Character,
    pub inventory: Vec<InventoryElement>,
}

/// The party as a value.
pub struct PartyView {
    pub first: Character,
    pub second: Character,
    pub third: Character,
    pub fourth: Character,
    pub inventory: Seq<InventoryElement>,
}

impl View for Party {
    type V = PartyView;

    open spec fn view(&self) -> PartyView {
        PartyView {
            first: self.first,
            second: self.second,
            third: self.third,
            fourth: self.fourth,
            inventory: self.inventory@,
        }
    }
}

/// What a tick of the party asks of the caller.
#[derive(Clone, Copy, Debug, PartialEq, Eq, Structural)]
pub struct PartyEvents {
    pub first: CharacterEvent,
    pub second: CharacterEvent,
    pub third: CharacterEvent,
    pub fourth: CharacterEvent,
}

impl PartyView {
    /// Every slot holds well-formed battle data.
    pub open spec fn wf(self) -> bool {
        self.first.wf() && self.second.wf() && self.third.wf() && self.fourth.wf()
    }

    /// The member in slot `slot`; every number past the third names the
    /// fourth slot.
    pub open spec fn member(self, slot: int) -> Character {
        if slot == 0 {
            self.first
        } else if slot == 1 {
            self.second
        } else if slot == 2 {
            self.third
        } else {
            self.fourth
        }
    }

    /// The party with `member` put in slot `slot`.
    pub open spec fn with_member(self, slot: int, member: Character) -> PartyView {
        if slot == 0 {
            PartyView { first: member, ..self }
        } else if slot == 1 {
            PartyView { second: member, ..self }
        } else if slot == 2 {
            PartyView { third: member, ..self }
        } else {
            PartyView { fourth: member, ..self }
        }
    }

    /// How many members are there and alive.
    pub open spec fn alive_size(self) -> int {
        (if self.first.is_alive() {
            1int
        } else {
            0
        }) + (if self.second.is_alive() {
            1int
        } else {
            0
        }) + (if self.third.is_alive() {
            1int
        } else {
            0
        }) + (if self.fourth.is_alive() {
            1int
        } else {
            0
        })
    }

    /// The slots of the members that are there and alive, in order.
    pub open spec fn alive_slots(self) -> Seq<u8> {
        (if self.first.is_alive() {
            seq![0u8]
        } else {
            Seq::<u8>::empty()
        }) + (if self.second.is_alive() {
            seq![1u8]
        } else {
            Seq::<u8>::empty()
        }) + (if self.third.is_alive() {
            seq![2u8]
        } else {
            Seq::<u8>::empty()
        }) + (if self.fourth.is_alive() {
            seq![3u8]
        } else {
            Seq::<u8>::empty()
        })
    }

    /// The slot of the member that holds the turn: the first whose turn is
    /// marked active, and the fourth if none is.
    pub open spec fn active_slot(self) -> int {
        if self.first.state.turn_active {
            0
        } else if self.second.state.turn_active {
            1
        } else if self.third.state.turn_active {
            2
        } else {
            3
        }
    }

    /// The shared turn state after the first `n` members were updated, each
    /// seeing what the one before left.
    pub open spec fn turn_after(self, turn: Turn, tick: usize, n: int) -> Turn
        decreases n,
    {
        if n <= 0 {
            turn
        } else {
            self.member(n - 1).turn_after_update(self.turn_after(turn, tick, n - 1), tick)
        }
    }

    /// The member of slot `slot` one tick later.
    pub open spec fn member_after_update(self, turn: Turn, tick: usize, slot: int) -> Character {
        self.member(slot).after_update(tick, self.turn_after(turn, tick, slot).token)
    }

    /// The party one tick later: its members are updated in slot order.
    pub open spec fn after_update(self, turn: Turn, tick: usize) -> PartyView {
        PartyView {
            first: self.member_after_update(turn, tick, 0),
            second: self.member_after_update(turn, tick, 1),
            third: self.member_after_update(turn, tick, 2),
            fourth: self.member_after_update(turn, tick, 3),
            inventory: self.inventory,
        }
    }

    /// What the tick asks of the caller, member by member.
    pub open spec fn events_of_update(self, turn: Turn, tick: usize) -> PartyEvents {
        PartyEvents {
            first: self.first.event_of_update(tick, self.turn_after(turn, tick, 0).token),
            second: self.second.event_of_update(tick, self.turn_after(turn, tick, 1).token),
            third: self.third.event_of_update(tick, self.turn_after(turn, tick, 2).token),
            fourth: self.fourth.event_of_update(tick, self.turn_after(turn, tick, 3).token),
        }
    }
}

/// Ticks of grace after a battle is won, counted from the tick the victory
/// was seen on: on each of them the party poses, and on the tick after the
/// last of them the experience is shared out.
pub const VICTORY_GRACE_TICKS: usize = 60;

/// What each member gets of `experience` shared among `alive` members: an
/// equal part, rounded up.
pub open spec fn experience_share(experience: u32, alive: int) -> int {
    (experience + alive - 1) / alive
}

/// The experience as it is shown once it was shared among `alive` members:
/// all the shares together, stopping at the most that can be counted.
pub open spec fn experience_shown(experience: u32, alive: int) -> u32 {
    experience_sum(0, experience_share(experience, alive) * alive)
}

/// `experience` and `gained` together, stopping at the most that can be
/// counted.
pub open spec fn experience_sum(experience: u32, gained: int) -> u32 {
    if experience + gained > u32::MAX {
        u32::MAX
    } else {
        (experience + gained) as u32
    }
}

/// A member after the experience was shared out: every member that is
/// there, alive or not, gets the share.
pub open spec fn rewarded(member: Character, share: int) -> Character {
    if member.is_present() {
        Character {
            state: BattleState {
                experience: experience_sum(member.state.experience, share),
                ..member.state
            },
            ..member
        }
    } else {
        member
    }
}

/// A member as the party poses: one with hit points left strikes the
/// victory pose.
pub open spec fn posing(member: Character) -> Character {
    if member.state.hp > 0 {
        Character { sprite: Sprite::Victory, ..member }
    } else {
        member
    }
}

/// Whether `target_pos` names an enemy of the formation: columns are
/// counted from one, column zero being the party.
pub open spec fn names_enemy(roster: Seq<Seq<crate::battle::enemy::Enemy>>, target_pos: (usize, usize)) -> bool {
    target_pos.0 >= 1 && target_pos.0 - 1 < roster.len() && target_pos.1 < roster[target_pos.0
        - 1].len()
}

impl PartyView {
    /// The party after the experience of a won battle was shared out, and
    /// the experience as it is then shown: the least multiple of the number
    /// of the living that holds all of it. With nobody alive nothing is
    /// shared.
    pub open spec fn after_experience(self, experience: u32) -> (PartyView, u32) {
        let alive = self.alive_size();
        if alive == 0 {
            (self, experience)
        } else {
            let share = experience_share(experience, alive);
            (
                PartyView {
                    first: rewarded(self.first, share),
                    second: rewarded(self.second, share),
                    third: rewarded(self.third, share),
                    fourth: rewarded(self.fourth, share),
                    inventory: self.inventory,
                },
                experience_shown(experience, alive),
            )
        }
    }

    /// The party as it poses.
    pub open spec fn posed(self) -> PartyView {
        PartyView {
            first: posing(self.first),
            second: posing(self.second),
            third: posing(self.third),
            fourth: posing(self.fourth),
            inventory: self.inventory,
        }
    }

    /// The party after a won battle's tick, `since` ticks after the victory
    /// was seen, and the experience as it is then shown.
    pub open spec fn after_won_battle(self, since: usize, experience: u32) -> (PartyView, u32) {
        if since < VICTORY_GRACE_TICKS {
            (self.posed(), experience)
        } else if since == VICTORY_GRACE_TICKS {
            self.after_experience(experience)
        } else {
            (self, experience)
        }
    }

    /// The party as the member that holds the turn starts to carry a
    /// command out.
    pub open spec fn with_attack_started(self, tick: usize) -> PartyView {
        let slot = self.active_slot();
        self.with_member(
            slot,
            Character {
                animation: (Animation::Attack, ATTACK_TICKS, tick),
                sprite: Sprite::Attack,
                ..self.member(slot)
            },
        )
    }

    /// The party and the battle after the member that holds the turn
    /// carried `action` out on the target at `target_pos`.
    ///
    /// The member starts its attack. Column zero is the party, and its rows
    /// are the slots; any other column is the enemy column one less. The
    /// action is resolved against the target named; a position that names
    /// nobody leaves everything else as it was.
    pub open spec fn after_turn_action(
        self,
        battle: BattleView,
        target_pos: (usize, usize),
        action: ActionParameters,
        tick: usize,
        rolls: ActionRolls,
    ) -> (PartyView, BattleView) {
        let started = self.with_attack_started(tick);
        if target_pos.0 == 0 {
            let target = started.member(target_pos.1 as int);
            (
                PartyView {
                    inventory: target.state.inventory_after_resolve(
                        action,
                        started.inventory,
                        rolls,
                    ),
                    ..started.with_member(
                        target_pos.1 as int,
                        target.after_action(action, started.inventory, tick, rolls),
                    )
                },
                BattleView {
                    turn: Turn {
                        banner: target.state.banner_after_resolve(
                            action,
                            started.inventory,
                            battle.turn.banner,
                            target.name@,
                            rolls,
                        ),
                        ..battle.turn
                    },
                    ..battle
                },
            )
        } else if names_enemy(battle.roster, target_pos) {
            let column = target_pos.0 - 1;
            let target = battle.roster[column][target_pos.1 as int];
            (
                PartyView {
                    inventory: target.state.inventory_after_resolve(
                        action,
                        started.inventory,
                        rolls,
                    ),
                    ..started
                },
                BattleView {
                    roster: battle.roster.update(
                        column,
                        battle.roster[column].update(
                            target_pos.1 as int,
                            target.after_action(action, started.inventory, tick, rolls),
                        ),
                    ),
                    turn: Turn {
                        banner: target.state.banner_after_resolve(
                            action,
                            started.inventory,
                            battle.turn.banner,
                            target.name@,
                            rolls,
                        ),
                        ..battle.turn
                    },
                    ..battle
                },
            )
        } else {
            (started, battle)
        }
    }
}

/// Whether the command, decided by `rolls`, led from the one party and
/// battle to the other.
pub open spec fn turn_action_taken(
    party_before: PartyView,
    party_after: PartyView,
    battle_before: BattleView,
    battle_after: BattleView,
    target_pos: (usize, usize),
    action: ActionParameters,
    tick: usize,
    rolls: ActionRolls,
) -> bool {
    (party_after, battle_after) == party_before.after_turn_action(
        battle_before,
        target_pos,
        action,
        tick,
        rolls,
    )
}

impl Party {
    pub open spec fn wf(&self) -> bool {
        self@.wf()
    }

    /// Tests `wf`, for callers that built or changed a party by hand.
    pub fn is_well_formed(&self) -> (ok: bool)
        ensures
            ok == self.wf(),
    {
        self.first.state.is_well_formed() && self.second.state.is_well_formed()
            && self.third.state.is_well_formed() && self.fourth.state.is_well_formed()
    }

    /// The party as a game starts: Darrel and Seraphine in the first two
    /// slots, the other two empty, and two potions and an ether to share.
    pub fn new() -> (party: Party)
        ensures
            party.wf(),
            party.first.is_new() && party.first.name@ == "Darrel"@ && party.first.has_stats(
                1,
                3,
                9935,
                910,
                6,
                5,
                3,
                4,
                5,
                false,
            ),
            party.second.is_new() && party.second.name@ == "Seraphine"@
                && party.second.has_stats(2, 3, 20, 15, 5, 3, 5, 3, 4, true),
            party.third.is_new() && !party.third.is_present() && party.third.state.id == 3,
            party.fourth.is_new() && !party.fourth.is_present() && party.fourth.state.id == 4,
            party.inventory@ == seq![
                InventoryElement::Item(InventoryItem { variant: ItemVariant::Potion }, 2),
                InventoryElement::Item(InventoryItem { variant: ItemVariant::Ether }, 1),
            ],
    {
        let mut inventory: Vec<InventoryElement> = Vec::new();
        inventory.push(InventoryElement::Item(InventoryItem::new(ItemVariant::Potion), 2));
        inventory.push(InventoryElement::Item(InventoryItem::new(ItemVariant::Ether), 1));
        assert(inventory@ =~= seq![
            InventoryElement::Item(InventoryItem { variant: ItemVariant::Potion }, 2),
            InventoryElement::Item(InventoryItem { variant: ItemVariant::Ether }, 1),
        ]);
        Party {
            first: crate::data::characters::darrel_deen(1),
            second: crate::data::characters::nurse_seraphine(2),
            third: crate::data::characters::none_character(3),
            fourth: crate::data::characters::none_character(4),
            inventory,
        }
    }

    /// Shares the experience of a won battle out: see
    /// `PartyView::after_experience`.
    pub fn gain_experience(&mut self, experience: &mut u32)
        ensures
            (final(self)@, *final(experience)) == old(self)@.after_experience(*old(experience)),
            old(self).wf() ==> final(self).wf(),
    {
        let alive = self.get_alive_size();
        if alive > 0 {
            let (share, shown) = share_out(*experience, alive);
            *experience = shown;
            reward(&mut self.first, share);
            reward(&mut self.second, share);
            reward(&mut self.third, share);
            reward(&mut self.fourth, share);
        }
    }

    /// A tick of a won battle. `ending_tick` is the tick the victory was
    /// seen on. During the grace period the living strike the victory pose;
    /// on the tick after it, the experience is shared out and the caller is
    /// told to show the summary.
    pub fn won_battle(&mut self, tick: usize, ending_tick: usize, experience: &mut u32) -> (summary:
        bool)
        ensures
            (final(self)@, *final(experience)) == old(self)@.after_won_battle(
                elapsed(tick, ending_tick),
                *old(experience),
            ),
            summary == (elapsed(tick, ending_tick) == VICTORY_GRACE_TICKS),
            old(self).wf() ==> final(self).wf(),
    {
        let since = ticks_since(tick, ending_tick);
        if since < VICTORY_GRACE_TICKS {
            if self.first.state.hp > 0 {
                self.first.sprite = Sprite::Victory;
            }
            if self.second.state.hp > 0 {
                self.second.sprite = Sprite::Victory;
            }
            if self.third.state.hp > 0 {
                self.third.sprite = Sprite::Victory;
            }
            if self.fourth.state.hp > 0 {
                self.fourth.sprite = Sprite::Victory;
            }
            false
        } else if since == VICTORY_GRACE_TICKS {
            self.gain_experience(experience);
            true
        } else {
            false
        }
    }

    /// Lets the member that holds the turn carry `action` out on the target
    /// at `target_pos`, with the rolls given: see
    /// `PartyView::after_turn_action`. Says whether the position named a
    /// target.
    pub fn battle_turn_action_with(
        &mut self,
        battle: &mut Battle,
        target_pos: (usize, usize),
        action_parameters: &ActionParameters,
        tick: usize,
        rolls: ActionRolls,
    ) -> (found: bool)
        requires
            old(self).wf(),
            old(battle).wf(),
        ensures
            (final(self)@, final(battle)@) == old(self)@.after_turn_action(
                old(battle)@,
                target_pos,
                *action_parameters,
                tick,
                rolls,
            ),
            found == (target_pos.0 == 0 || names_enemy(old(battle)@.roster, target_pos)),
            final(self).wf(),
            final(battle).wf(),
    {
        let character = self.get_active();
        character.animation = (Animation::Attack, ATTACK_TICKS, tick);
        character.sprite = Sprite::Attack;
        proof {
            crate::battle::state::lemma_rules_keep_wf();
        }
        if target_pos.0 == 0 {
            match target_pos.1 {
                0 => self.first.receive_battle_action_with(
                    &mut self.inventory,
                    &mut battle.notification,
                    action_parameters,
                    tick,
                    rolls,
                ),
                1 => self.second.receive_battle_action_with(
                    &mut self.inventory,
                    &mut battle.notification,
                    action_parameters,
                    tick,
                    rolls,
                ),
                2 => self.third.receive_battle_action_with(
                    &mut self.inventory,
                    &mut battle.notification,
                    action_parameters,
                    tick,
                    rolls,
                ),
                _ => self.fourth.receive_battle_action_with(
                    &mut self.inventory,
                    &mut battle.notification,
                    action_parameters,
                    tick,
                    rolls,
                ),
            }
            true
        } else if target_pos.0 - 1 < battle.enemies.len() && target_pos.1 < battle.enemies[target_pos.0
            - 1].len() {
            let column = target_pos.0 - 1;
            let ghost before = battle@.roster;
            battle.enemies[column][target_pos.1].receive_battle_action_with(
                &mut self.inventory,
                &mut battle.notification,
                action_parameters,
                tick,
                rolls,
            );
            assert(battle@.roster[column as int] =~= before[column as int].update(
                target_pos.1 as int,
                before[column as int][target_pos.1 as int].after_action(
                    *action_parameters,
                    old(self).inventory@,
                    tick,
                    rolls,
                ),
            ));
            assert(battle@.roster =~= before.update(column as int, battle@.roster[column as int]));
            true
        } else {
            false
        }
    }

    /// Lets the member that holds the turn carry `action` out on the target
    /// at `target_pos`. Fresh rolls decide what the action leaves to chance,
    /// so the outcome is that of `battle_turn_action_with` for some rolls.
    pub fn battle_turn_action(
        &mut self,
        battle: &mut Battle,
        target_pos: (usize, usize),
        action_parameters: &ActionParameters,
        tick: usize,
    ) -> (found: bool)
        requires
            old(self).wf(),
            old(battle).wf(),
        ensures
            exists|rolls: ActionRolls|
                rolls.valid() && #[trigger] turn_action_taken(
                    old(self)@,
                    final(self)@,
                    old(battle)@,
                    final(battle)@,
                    target_pos,
                    *action_parameters,
                    tick,
                    rolls,
                ),
            found == (target_pos.0 == 0 || names_enemy(old(battle)@.roster, target_pos)),
            final(self).wf(),
            final(battle).wf(),
    {
        let rolls = crate::battle::state::draw_action_rolls();
        let found = self.battle_turn_action_with(battle, target_pos, action_parameters, tick, rolls);
        assert(turn_action_taken(
            old(self)@,
            self@,
            old(battle)@,
            battle@,
            target_pos,
            *action_parameters,
            tick,
            rolls,
        ));
        found
    }

    /// Lets one tick pass for the four members, in slot order.
    pub fn update(
        &mut self,
        tick: usize,
        active_turns: &mut Vec<u8>,
        current_turn: &mut u8,
        notification: &mut Option<Notification>,
    ) -> (events: PartyEvents)
        requires
            old(self).wf(),
        ensures
            final(self)@ == old(self)@.after_update(
                turn_of(*old(current_turn), *old(active_turns), *old(notification)),
                tick,
            ),
            turn_of(*final(current_turn), *final(active_turns), *final(notification)) == old(
                self,
            )@.turn_after(
                turn_of(*old(current_turn), *old(active_turns), *old(notification)),
                tick,
                4,
            ),
            events == old(self)@.events_of_update(
                turn_of(*old(current_turn), *old(active_turns), *old(notification)),
                tick,
            ),
            final(self).wf(),
    {
        let ghost start = turn_of(*current_turn, *active_turns, *notification);
        let ghost before = self@;
        assert(before.turn_after(start, tick, 0) == start);
        let first = self.first.update(tick, active_turns, current_turn, notification);
        assert(turn_of(*current_turn, *active_turns, *notification) == before.turn_after(
            start,
            tick,
            1,
        ));
        let second = self.second.update(tick, active_turns, current_turn, notification);
        assert(turn_of(*current_turn, *active_turns, *notification) == before.turn_after(
            start,
            tick,
            2,
        ));
        let third = self.third.update(tick, active_turns, current_turn, notification);
        assert(turn_of(*current_turn, *active_turns, *notification) == before.turn_after(
            start,
            tick,
            3,
        ));
        let fourth = self.fourth.update(tick, active_turns, current_turn, notification);
        assert(turn_of(*current_turn, *active_turns, *notification) == before.turn_after(
            start,
            tick,
            4,
        ));
        PartyEvents { first, second, third, fourth }
    }

    /// How many members are there and alive.
    pub fn get_alive_size(&self) -> (size: u32)
        ensures
            size == self@.alive_size(),
            size <= 4,
    {
        let mut party_size: u32 = 0;
        if self.first.alive() {
            party_size = party_size + 1;
        }
        if self.second.alive() {
            party_size = party_size + 1;
        }
        if self.third.alive() {
            party_size = party_size + 1;
        }
        if self.fourth.alive() {
            party_size = party_size + 1;
        }
        party_size
    }

    /// The slot of the member that holds the turn.
    pub fn active_slot(&self) -> (slot: usize)
        ensures
            slot == self@.active_slot(),
            slot < 4,
    {
        if self.first.state.turn_active {
            0
        } else if self.second.state.turn_active {
            1
        } else if self.third.state.turn_active {
            2
        } else {
            3
        }
    }

    /// The member that holds the turn.
    pub fn get_active(&mut self) -> (member: &mut Character)
        ensures
            *member == old(self)@.member(old(self)@.active_slot()),
            final(self)@ == old(self)@.with_member(old(self)@.active_slot(), *final(member)),
    {
        if self.first.state.turn_active {
            &mut self.first
        } else if self.second.state.turn_active {
            &mut self.second
        } else if self.third.state.turn_active {
            &mut self.third
        } else {
            &mut self.fourth
        }
    }

    /// The slots of the members that are there and alive, in order.
    pub fn alive_slots(&self) -> (slots: Vec<u8>)
        ensures
            slots@ == self@.alive_slots(),
            slots@.len() == self@.alive_size(),
    {
        let mut slots: Vec<u8> = Vec::new();
        if self.first.alive() {
            slots.push(0);
        }
        if self.second.alive() {
            slots.push(1);
        }
        if self.third.alive() {
            slots.push(2);
        }
        if self.fourth.alive() {
            slots.push(3);
        }
        assert(slots@ =~= self@.alive_slots());
        slots
    }
}

/// The stacks among the first `n` that have units left, if `stocked`, or
/// that have none, if not; in order.
pub open spec fn stacks_where(inventory: Seq<InventoryElement>, stocked: bool, n: int) -> Seq<
    InventoryElement,
>
    decreases n,
{
    if n <= 0 {
        Seq::empty()
    } else if (inventory[n - 1].amount() > 0) == stocked {
        stacks_where(inventory, stocked, n - 1).push(inventory[n - 1])
    } else {
        stacks_where(inventory, stocked, n - 1)
    }
}

/// The inventory with the stacks that have units left brought to the front:
/// those stacks in the order they were in, then the empty ones in theirs.
pub open spec fn stocked_first(inventory: Seq<InventoryElement>) -> Seq<InventoryElement> {
    stacks_where(inventory, true, inventory.len() as int) + stacks_where(
        inventory,
        false,
        inventory.len() as int,
    )
}

/// Every stack is either among those with units left or among those
/// without, so bringing the stocked to the front keeps their number.
pub proof fn lemma_stacks_split(inventory: Seq<InventoryElement>, n: int)
    requires
        0 <= n <= inventory.len(),
    ensures
        stacks_where(inventory, true, n).len() + stacks_where(inventory, false, n).len() == n,
        forall|k: int|
            0 <= k < stacks_where(inventory, true, n).len() ==> (#[trigger] stacks_where(
                inventory,
                true,
                n,
            )[k]).amount() > 0,
        forall|k: int|
            0 <= k < stacks_where(inventory, false, n).len() ==> (#[trigger] stacks_where(
                inventory,
                false,
                n,
            )[k]).amount() == 0,
    decreases n,
{
    if n > 0 {
        lemma_stacks_split(inventory, n - 1);
    }
}

/// Brings the stacks that have units left to the front: see `stocked_first`.
pub fn sort_inventory(inventory: &mut Vec<InventoryElement>)
    ensures
        final(inventory)@ == stocked_first(old(inventory)@),
        final(inventory)@.len() == old(inventory)@.len(),
{
    let ghost before = inventory@;
    let mut sorted: Vec<InventoryElement> = Vec::new();
    let mut i: usize = 0;
    while i < inventory.len()
        invariant
            0 <= i <= inventory.len(),
            inventory@ == before,
            sorted@ == stacks_where(before, true, i as int),
        decreases inventory.len() - i,
    {
        let InventoryElement::Item(_, amount) = inventory[i];
        if amount > 0 {
            sorted.push(inventory[i]);
        }
        i = i + 1;
    }
    let ghost stocked = sorted@;
    let mut j: usize = 0;
    while j < inventory.len()
        invariant
            0 <= j <= inventory.len(),
            inventory@ == before,
            stocked == stacks_where(before, true, before.len() as int),
            sorted@ == stocked + stacks_where(before, false, j as int),
        decreases inventory.len() - j,
    {
        let InventoryElement::Item(_, amount) = inventory[j];
        if amount == 0 {
            sorted.push(inventory[j]);
            assert(sorted@ =~= stocked + stacks_where(before, false, j + 1));
        }
        j = j + 1;
    }
    proof {
        lemma_stacks_split(before, before.len() as int);
    }
    *inventory = sorted;
}

/// A member after a unit of `item` was used on it from the menu, if the
/// member is among the `targets`.
pub open spec fn treated(member: Character, item: InventoryItem, targeted: bool) -> Character {
    if targeted {
        Character { state: item.applied(member.state, false), ..member }
    } else {
        member
    }
}

impl PartyView {
    /// Whether the stack at `index` can be used from: it is there and has
    /// units left.
    pub open spec fn can_use(self, index: int) -> bool {
        0 <= index < self.inventory.len() && self.inventory[index].amount() > 0
    }

    /// The party after a unit of the stack at `index` was used on the
    /// members among the `targets`: the stack has a unit less and each of
    /// those members has had the item's effect. A stack that is not there or
    /// has no unit left leaves the party as it was.
    pub open spec fn after_item_use(self, index: int, targets: PartyTargets) -> PartyView {
        if self.can_use(index) {
            let item = self.inventory[index].item();
            PartyView {
                first: treated(self.first, item, targets.first),
                second: treated(self.second, item, targets.second),
                third: treated(self.third, item, targets.third),
                fourth: treated(self.fourth, item, targets.fourth),
                inventory: self.inventory.update(
                    index,
                    InventoryElement::Item(item, (self.inventory[index].amount() - 1) as u8),
                ),
            }
        } else {
            self
        }
    }

    /// The slots of the members that are there, in order.
    pub open spec fn present_slots(self) -> Seq<u8> {
        (if self.first.is_present() {
            seq![0u8]
        } else {
            Seq::<u8>::empty()
        }) + (if self.second.is_present() {
            seq![1u8]
        } else {
            Seq::<u8>::empty()
        }) + (if self.third.is_present() {
            seq![2u8]
        } else {
            Seq::<u8>::empty()
        }) + (if self.fourth.is_present() {
            seq![3u8]
        } else {
            Seq::<u8>::empty()
        })
    }

    /// The party after the row of the `row`-th member that is there was
    /// changed; nothing changes if fewer members are there.
    pub open spec fn after_row_toggle(self, row: int) -> PartyView {
        if 0 <= row < self.present_slots().len() {
            let slot = self.present_slots()[row] as int;
            self.with_member(slot, row_toggled(self.member(slot)))
        } else {
            self
        }
    }
}

/// Pixels a member in the back row stands behind the front row.
pub const BACK_ROW_OFFSET: i32 = 50;

/// A member after it changed rows: from the back it steps forward, from the
/// front back.
pub open spec fn row_toggled(member: Character) -> Character {
    if member.state.back_row {
        Character {
            state: BattleState { back_row: false, ..member.state },
            x_offset: crate::battle::animation::shifted(member.x_offset, BACK_ROW_OFFSET as int),
            ..member
        }
    } else {
        Character {
            state: BattleState { back_row: true, ..member.state },
            x_offset: crate::battle::animation::shifted(member.x_offset, -BACK_ROW_OFFSET),
            ..member
        }
    }
}

/// Uses the item on a member, if the member is targeted.
fn treat(member: &mut Character, item: &InventoryItem, targeted: bool)
    requires
        old(member).wf(),
    ensures
        *final(member) == treated(*old(member), *item, targeted),
        final(member).wf(),
{
    if targeted {
        item.apply_item_effect(&mut member.state, false);
    }
}

/// Makes a member change rows.
fn toggle(member: &mut Character)
    ensures
        *final(member) == row_toggled(*old(member)),
        old(member).wf() ==> final(member).wf(),
{
    if member.state.back_row {
        member.state.back_row = false;
        member.x_offset = crate::battle::animation::shift(member.x_offset, BACK_ROW_OFFSET);
    } else {
        member.state.back_row = true;
        member.x_offset = crate::battle::animation::shift(member.x_offset, -BACK_ROW_OFFSET);
    }
}

/// What using an item from the menu came to.
#[derive(Clone, Copy, Debug, PartialEq, Eq, Structural)]
pub enum ItemUse {
    /// There was no unit to use.
    NotUsed,
    /// A unit was used and the stack has units left.
    Used,
    /// The last unit of the stack was used.
    UsedUp,
}

impl Party {
    /// Uses a unit of the stack at `index` on the members among the
    /// `targets`: see `PartyView::after_item_use`.
    pub fn use_item(&mut self, index: usize, targets: PartyTargets) -> (used: ItemUse)
        requires
            old(self).wf(),
        ensures
            final(self)@ == old(self)@.after_item_use(index as int, targets),
            final(self).wf(),
            used == if !old(self)@.can_use(index as int) {
                ItemUse::NotUsed
            } else if old(self).inventory@[index as int].amount() == 1 {
                ItemUse::UsedUp
            } else {
                ItemUse::Used
            },
    {
        if index < self.inventory.len() {
            let InventoryElement::Item(item, amount) = self.inventory[index];
            if amount > 0 {
                self.inventory[index] = InventoryElement::Item(item, amount - 1);
                treat(&mut self.first, &item, targets.first);
                treat(&mut self.second, &item, targets.second);
                treat(&mut self.third, &item, targets.third);
                treat(&mut self.fourth, &item, targets.fourth);
                if amount == 1 {
                    return ItemUse::UsedUp;
                } else {
                    return ItemUse::Used;
                }
            }
        }
        ItemUse::NotUsed
    }

    /// The slots of the members that are there, in order.
    pub fn present_slots(&self) -> (slots: Vec<u8>)
        ensures
            slots@ == self@.present_slots(),
            forall|k: int| 0 <= k < slots@.len() ==> (#[trigger] slots@[k]) < 4,
    {
        let mut slots: Vec<u8> = Vec::new();
        if self.first.present() {
            slots.push(0);
        }
        if self.second.present() {
            slots.push(1);
        }
        if self.third.present() {
            slots.push(2);
        }
        if self.fourth.present() {
            slots.push(3);
        }
        assert(slots@ =~= self@.present_slots());
        slots
    }

    /// Changes the row of the `row`-th member that is there: see
    /// `PartyView::after_row_toggle`. Says which slot that member is in.
    pub fn toggle_row(&mut self, row: usize) -> (slot: Option<u8>)
        ensures
            final(self)@ == old(self)@.after_row_toggle(row as int),
            old(self).wf() ==> final(self).wf(),
            slot == if row < old(self)@.present_slots().len() {
                Some(old(self)@.present_slots()[row as int])
            } else {
                None::<u8>
            },
    {
        let characters_in_party = self.present_slots();
        if row < characters_in_party.len() {
            let selected_index = characters_in_party[row];
            match selected_index {
                0 => toggle(&mut self.first),
                1 => toggle(&mut self.second),
                2 => toggle(&mut self.third),
                _ => toggle(&mut self.fourth),
            }
            Some(selected_index)
        } else {
            None
        }
    }
}

} // verus!
