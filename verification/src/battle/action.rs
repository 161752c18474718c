//! What an action does to its target.

use crate::dice::Chance;
use crate::party::item::InventoryItem;
use vstd::prelude::*;

verus! {

/// What an action without a damage formula does instead.
#[derive(Clone, Copy, Debug, PartialEq, Eq, Structural)]
pub enum SideEffect {
    /// Nothing at all.
    Nothing,
    /// Tries to take the target's loot into the inventory.
    Steal,
}

/// How an action's effect on its target is computed.
#[derive(Copy, Debug, PartialEq, Eq, Structural)]
pub enum DamageType {
    /// No formula; the side effect says what happens.
    Effect(SideEffect),
    /// Uses up one unit of the item and applies its effect.
    Item(InventoryItem),
    /// Damage mitigated by the target's defence.
    Physical,
    /// Damage mitigated by the target's resistance.
    Magical,
    /// Damage that nothing mitigates.
    Pure,
    /// Restores hit points, scaled by the target's own magic.
    Healing,
}

/// One action: its formula, its base power and the chances with which it
/// kills outright, poisons or puts to sleep. Each chance is decided by a roll
/// of its own.
#[derive(Copy, Debug, PartialEq, Eq, Structural)]
pub struct ActionParameters {
    pub damage_type: DamageType,
    pub power: u16,
    pub dead_change: Chance,
    pub revive: bool,
    pub poison_change: Chance,
    pub cure_poison: bool,
    pub sleep_change: Chance,
    pub cure_sleep: bool,
}

/// The action of the given formula and power that afflicts no status.
pub open spec fn plain_action(damage_type: DamageType, power: u16) -> ActionParameters {
    ActionParameters {
        damage_type,
        power,
        dead_change: Chance { threshold: 0 },
        revive: false,
        poison_change: Chance { threshold: 0 },
        cure_poison: false,
        sleep_change: Chance { threshold: 0 },
        cure_sleep: false,
    }
}

impl ActionParameters {
    pub fn new(
        damage_type: DamageType,
        power: u16,
        dead_change: Chance,
        revive: bool,
        poison_change: Chance,
        cure_poison: bool,
        sleep_change: Chance,
        cure_sleep: bool,
    ) -> (action: ActionParameters)
        ensures
            action == (ActionParameters {
                damage_type,
                power,
                dead_change,
                revive,
                poison_change,
                cure_poison,
                sleep_change,
                cure_sleep,
            }),
    {
        ActionParameters {
            damage_type,
            power,
            dead_change,
            revive,
            poison_change,
            cure_poison,
            sleep_change,
            cure_sleep,
        }
    }

    /// An action of the given formula and power that afflicts no status.
    pub fn plain(damage_type: DamageType, power: u16) -> (action: ActionParameters)
        ensures
            action == plain_action(damage_type, power),
    {
        ActionParameters {
            damage_type,
            power,
            dead_change: Chance::never(),
            revive: false,
            poison_change: Chance::never(),
            cure_poison: false,
            sleep_change: Chance::never(),
            cure_sleep: false,
        }
    }

}

impl Clone for DamageType {
    /// A copy equal to the formula, its item included.
    fn clone(&self) -> (copy: Self)
        ensures
            copy == *self,
    {
        match self {
            DamageType::Effect(effect) => DamageType::Effect(*effect),
            DamageType::Item(item) => DamageType::Item(*item),
            DamageType::Physical => DamageType::Physical,
            DamageType::Magical => DamageType::Magical,
            DamageType::Pure => DamageType::Pure,
            DamageType::Healing => DamageType::Healing,
        }
    }
}

impl Clone for ActionParameters {
    /// A copy equal to the action in every field. The copy is a value of its
    /// own: using it up leaves the action it was taken from as it was.
    fn clone(&self) -> (copy: Self)
        ensures
            copy == *self,
    {
        ActionParameters {
            damage_type: self.damage_type.clone(),
            power: self.power,
            dead_change: self.dead_change,
            revive: self.revive,
            poison_change: self.poison_change,
            cure_poison: self.cure_poison,
            sleep_change: self.sleep_change,
            cure_sleep: self.cure_sleep,
        }
    }
}

} // verus!
