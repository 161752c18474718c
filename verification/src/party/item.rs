//! Consumable items and the stacks of them the party carries.

use crate::battle::action::{plain_action, ActionParameters, DamageType};
use crate::battle::print_damage::{NumberColor, PrintDamage};
use crate::battle::state::BattleState;
use crate::menu::item::{MenuId, OnClickEvent};
use vstd::prelude::*;

verus! {

/// Hit points a potion restores.
pub const POTION_HEAL: u16 = 100;

/// Magic points an ether restores.
pub const ETHER_RESTORE: u16 = 25;

/// Most units of a common item a stack takes in by theft.
pub const STACK_CAP: u8 = 99;

/// The kinds of item.
#[derive(Clone, Copy, Debug, PartialEq, Eq, Structural)]
pub enum ItemVariant {
    Potion,
    Ether,
}

/// One item, as carried in a stack, held by an enemy as loot or used in an action.
#[derive(Clone, Copy, Debug, PartialEq, Eq, Structural)]
pub struct InventoryItem {
    pub variant: ItemVariant,
}

/// `a + b`, but no more than `cap`.
pub open spec fn capped_sum(a: u16, b: u16, cap: u16) -> u16 {
    if a + b >= cap {
        cap
    } else {
        (a + b) as u16
    }
}

impl InventoryItem {
    /// The name the item goes by; items of one name are one kind.
    pub open spec fn name(self) -> Seq<char> {
        match self.variant {
            ItemVariant::Potion => "Potion"@,
            ItemVariant::Ether => "Ether"@,
        }
    }

    /// The number the item's use floats over its target.
    pub open spec fn shown_number(self) -> PrintDamage {
        match self.variant {
            ItemVariant::Potion => PrintDamage {
                value: POTION_HEAL as u32,
                color: NumberColor::Green,
                show_time: crate::battle::print_damage::PRINT_DAMAGE_TICKS,
            },
            ItemVariant::Ether => PrintDamage {
                value: ETHER_RESTORE as u32,
                color: NumberColor::Blue,
                show_time: crate::battle::print_damage::PRINT_DAMAGE_TICKS,
            },
        }
    }

    /// The target after the item was used on it: a potion restores
    /// `POTION_HEAL` hit points and an ether `ETHER_RESTORE` magic points,
    /// neither beyond the target's maximum. In battle the amount floats over
    /// the target.
    pub open spec fn applied(self, target: BattleState, in_battle: bool) -> BattleState {
        let restored = match self.variant {
            ItemVariant::Potion => BattleState {
                hp: capped_sum(target.hp, POTION_HEAL, target.max_hp),
                ..target
            },
            ItemVariant::Ether => BattleState {
                mp: capped_sum(target.mp, ETHER_RESTORE, target.max_mp),
                ..target
            },
        };
        if in_battle {
            BattleState { print_damage: Some(self.shown_number()), ..restored }
        } else {
            restored
        }
    }

    pub fn new(variant: ItemVariant) -> (item: InventoryItem)
        ensures
            item.variant == variant,
    {
        InventoryItem { variant }
    }

    /// Uses the item on `target`.
    pub fn apply_item_effect(&self, target: &mut BattleState, in_battle: bool)
        requires
            old(target).wf(),
        ensures
            *final(target) == self.applied(*old(target), in_battle),
            final(target).wf(),
    {
        match self.variant {
            ItemVariant::Potion => {
                let sum: u32 = target.hp as u32 + POTION_HEAL as u32;
                target.hp = if sum >= target.max_hp as u32 {
                    target.max_hp
                } else {
                    sum as u16
                };
                if in_battle {
                    target.print_damage = Some(PrintDamage::new(POTION_HEAL as u32, NumberColor::Green));
                }
            },
            ItemVariant::Ether => {
                let sum: u32 = target.mp as u32 + ETHER_RESTORE as u32;
                target.mp = if sum >= target.max_mp as u32 {
                    target.max_mp
                } else {
                    sum as u16
                };
                if in_battle {
                    target.print_damage = Some(PrintDamage::new(ETHER_RESTORE as u32, NumberColor::Blue));
                }
            },
        }
    }

    pub fn get_name(&self) -> (name: String)
        ensures
            name@ == self.name(),
    {
        match self.variant {
            ItemVariant::Potion => "Potion".to_owned(),
            ItemVariant::Ether => "Ether".to_owned(),
        }
    }

    /// The action that uses the item in battle.
    pub open spec fn action(self) -> ActionParameters {
        plain_action(DamageType::Item(self), 0)
    }

    /// What choosing the item in the item menu asks for: the choice of a
    /// party member to use it on. `item_cursor_pos` is where the item stands
    /// in the item menu.
    pub fn get_to_menu_click_event(&self, item_cursor_pos: (usize, usize)) -> (event: OnClickEvent)
        ensures
            event == OnClickEvent::ToMenuScreen(MenuId::ItemTarget, item_cursor_pos),
    {
        match self.variant {
            ItemVariant::Potion => OnClickEvent::ToMenuScreen(MenuId::ItemTarget, item_cursor_pos),
            ItemVariant::Ether => OnClickEvent::ToMenuScreen(MenuId::ItemTarget, item_cursor_pos),
        }
    }

    /// What choosing the item in the battle's item menu asks for: the choice
    /// of a target for the action that uses it. `item_index` is the item's
    /// row in that menu.
    pub fn get_target_selection_click_event(&self, item_index: usize) -> (event: OnClickEvent)
        ensures
            event == OnClickEvent::ToTargetSelection(self.action(), (0usize, item_index)),
    {
        OnClickEvent::ToTargetSelection(
            ActionParameters::plain(DamageType::Item(*self), 0),
            (0, item_index),
        )
    }

    /// Whether `other` goes by the same name.
    pub fn same_name(&self, other: &InventoryItem) -> (same: bool)
        ensures
            same == (self.name() == other.name()),
            same == (*self == *other),
    {
        proof {
            lemma_names_differ();
        }
        self.variant == other.variant
    }
}

/// The two item names differ, so an item's name tells its kind.
pub proof fn lemma_names_differ()
    ensures
        "Potion"@ != "Ether"@,
        forall|a: InventoryItem, b: InventoryItem| a.name() == b.name() <==> a == b,
{
    reveal_strlit("Potion");
    reveal_strlit("Ether");
    assert("Potion"@.len() == 6);
    assert("Ether"@.len() == 5);
}

} // verus!
