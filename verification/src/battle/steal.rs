//! Stealing: taking an enemy's loot into the party's inventory.

use crate::battle::state::BattleState;
use crate::dice::roll;
use crate::menu::notification::{fresh_banner, post, slot_says, slot_view, Banner, Notification};
use crate::party::item::{InventoryItem, STACK_CAP};
use crate::party::{find_stack, stock, stocked, InventoryElement};
use vstd::prelude::*;
use vstd::string::StringExecFns;

verus! {

/// Rolls below this take the common loot: half of all rolls.
pub const STEAL_COMMON_BELOW: u32 = 8_388_608;

/// Rolls below this, and not below `STEAL_COMMON_BELOW`, take the rare loot:
/// the next tenth of all rolls.
pub const STEAL_RARE_BELOW: u32 = 10_066_330;

/// What an attempt at theft comes to.
#[derive(Clone, Copy, Debug, PartialEq, Eq, Structural)]
pub enum StealOutcome {
    /// The target carries no loot at all.
    NothingToSteal,
    /// The roll fell on the common loot.
    Common,
    /// The roll fell on the rare loot.
    Rare,
    /// The roll fell on neither.
    Failed,
}

/// Which outcome the roll picks against this target.
pub open spec fn steal_outcome(target: BattleState, roll: u32) -> StealOutcome {
    if target.common_steal is None && target.rare_steal is None {
        StealOutcome::NothingToSteal
    } else if roll < STEAL_COMMON_BELOW {
        StealOutcome::Common
    } else if roll < STEAL_RARE_BELOW {
        StealOutcome::Rare
    } else {
        StealOutcome::Failed
    }
}

/// The inventory after `loot`, if there is any, went on its stack: one more
/// unit on the first stack of that name, unless the stack is at `cap`.
pub open spec fn loot_stocked(
    loot: Option<InventoryItem>,
    cap: u8,
    inventory: Seq<InventoryElement>,
) -> Seq<InventoryElement> {
    match loot {
        Some(item) => stocked(inventory, item, cap),
        None => inventory,
    }
}

/// The banner after `loot` was reached for: it names the loot where the
/// target has that loot and the inventory a stack for it, and is untouched
/// otherwise.
pub open spec fn loot_banner(
    loot: Option<InventoryItem>,
    inventory: Seq<InventoryElement>,
    banner: Option<Banner>,
) -> Option<Banner> {
    match loot {
        Some(item) => if find_stack(inventory, item) is Some {
            fresh_banner("Stole "@ + item.name())
        } else {
            banner
        },
        None => banner,
    }
}

/// The inventory after an attempt at theft, given the roll that decided it.
///
/// Common loot goes on a stack only while the stack holds fewer than
/// `STACK_CAP` units; rare loot while it holds fewer than a stack can count.
pub open spec fn inventory_after_theft(
    target: BattleState,
    roll: u32,
    inventory: Seq<InventoryElement>,
) -> Seq<InventoryElement> {
    match steal_outcome(target, roll) {
        StealOutcome::Common => loot_stocked(target.common_steal, STACK_CAP, inventory),
        StealOutcome::Rare => loot_stocked(target.rare_steal, u8::MAX, inventory),
        _ => inventory,
    }
}

/// The banner after an attempt at theft, given the roll that decided it.
pub open spec fn banner_after_theft(
    target: BattleState,
    roll: u32,
    inventory: Seq<InventoryElement>,
    banner: Option<Banner>,
) -> Option<Banner> {
    match steal_outcome(target, roll) {
        StealOutcome::NothingToSteal => fresh_banner("Nothing to steal"@),
        StealOutcome::Common => loot_banner(target.common_steal, inventory, banner),
        StealOutcome::Rare => loot_banner(target.rare_steal, inventory, banner),
        StealOutcome::Failed => fresh_banner("Could not steal"@),
    }
}

/// Whether an attempt at theft, decided by `roll`, led from the one
/// inventory and banner to the other.
pub open spec fn theft_resolved(
    target: BattleState,
    roll: u32,
    inventory_before: Seq<InventoryElement>,
    inventory_after: Seq<InventoryElement>,
    banner_before: Option<Banner>,
    banner_after: Option<Banner>,
) -> bool {
    &&& inventory_after == inventory_after_theft(target, roll, inventory_before)
    &&& banner_after == banner_after_theft(target, roll, inventory_before, banner_before)
}

/// Takes `loot`, if there is any, onto its stack.
fn take_loot(
    loot: Option<InventoryItem>,
    cap: u8,
    inventory: &mut Vec<InventoryElement>,
    notification: &mut Option<Notification>,
)
    ensures
        final(inventory)@ == loot_stocked(loot, cap, old(inventory)@),
        slot_view(*final(notification)) == loot_banner(
            loot,
            old(inventory)@,
            slot_view(*old(notification)),
        ),
        final(inventory)@.len() == old(inventory)@.len(),
{
    match loot {
        Some(item) => {
            if stock(inventory, &item, cap) {
                let mut text = "Stole ".to_owned();
                text.append(item.get_name().as_str());
                post(notification, text);
            }
        },
        None => {},
    }
}

/// Resolves an attempt at theft with the roll given. The target keeps its
/// loot.
pub fn steal_with(
    inventory: &mut Vec<InventoryElement>,
    target_state: &BattleState,
    notification: &mut Option<Notification>,
    roll: u32,
)
    ensures
        final(inventory)@ == inventory_after_theft(*target_state, roll, old(inventory)@),
        slot_view(*final(notification)) == banner_after_theft(
            *target_state,
            roll,
            old(inventory)@,
            slot_view(*old(notification)),
        ),
        final(inventory)@.len() == old(inventory)@.len(),
{
    if target_state.common_steal.is_none() && target_state.rare_steal.is_none() {
        post(notification, "Nothing to steal".to_owned());
    } else if roll < STEAL_COMMON_BELOW {
        take_loot(target_state.common_steal, STACK_CAP, inventory, notification);
    } else if roll < STEAL_RARE_BELOW {
        take_loot(target_state.rare_steal, u8::MAX, inventory, notification);
    } else {
        post(notification, "Could not steal".to_owned());
    }
}

/// Resolves an attempt at theft. A fresh roll decides it, so the outcome is
/// that of `steal_with` for some roll; against a target without loot the
/// roll plays no part.
pub fn steal_action(
    inventory: &mut Vec<InventoryElement>,
    target_state: &BattleState,
    notification: &mut Option<Notification>,
)
    ensures
        exists|r: u32|
            crate::dice::valid_roll(r) && #[trigger] theft_resolved(
                *target_state,
                r,
                old(inventory)@,
                final(inventory)@,
                slot_view(*old(notification)),
                slot_view(*final(notification)),
            ),
        final(inventory)@.len() == old(inventory)@.len(),
        target_state.common_steal is None && target_state.rare_steal is None ==> final(inventory)@
            == old(inventory)@ && slot_says(*final(notification), "Nothing to steal"@),
{
    let r = if target_state.common_steal.is_none() && target_state.rare_steal.is_none() {
        0
    } else {
        roll()
    };
    steal_with(inventory, target_state, notification, r);
    assert(theft_resolved(
        *target_state,
        r,
        old(inventory)@,
        inventory@,
        slot_view(*old(notification)),
        slot_view(*notification),
    ));
}

} // verus!
