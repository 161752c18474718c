//! What choosing a menu entry asks for.

use crate::battle::action::ActionParameters;
use crate::GameMode;
use vstd::prelude::*;

verus! {

/// The screens a menu entry can lead to.
#[derive(Clone, Copy, Debug, PartialEq, Eq, Structural)]
pub enum MenuId {
    Main,
    Items,
    RowChange,
    ItemTarget,
    BattleMain,
    BattleItems,
}

/// The changes a menu entry can make to the screen it is on.
#[derive(Clone, Copy, Debug, PartialEq, Eq, Structural)]
pub enum MenuChange {
    ToggleRow,
    StartExperienceCount,
    CountExperience,
    FinishExperienceCount,
    EndExperienceCount,
}

/// The battle commands that need no target.
#[derive(Clone, Copy, Debug, PartialEq, Eq, Structural)]
pub enum BattleAction {
    Flee,
}

/// Which party members an item used from the menu goes to.
#[derive(Clone, Copy, Debug, PartialEq, Eq, Structural)]
pub struct PartyTargets {
    pub first: bool,
    pub second: bool,
    pub third: bool,
    pub fourth: bool,
}

/// What choosing a menu entry asks for. Cursor positions are pairs of column
/// and row.
#[derive(Clone, Copy, Debug)]
pub enum OnClickEvent {
    /// The entry does nothing.
    Nothing,
    /// Open a screen with the cursor at the given position.
    ToMenuScreen(MenuId, (usize, usize)),
    /// Open the target selection for an action; the position is where the
    /// cursor returns to if the selection is left.
    ToTargetSelection(ActionParameters, (usize, usize)),
    /// Let the acting party member carry the action out on the target at the
    /// given position.
    ActOnTarget((usize, usize), ActionParameters),
    /// Change the screen the entry is on.
    MutateMenu(MenuChange),
    /// Hand the simulation to another mode.
    Transition(GameMode),
    /// Fade to a screen with the cursor at the given position.
    MenuTransition(MenuId, (usize, usize)),
    /// Use the item under the given cursor position on the given members.
    UseItemInMenu(PartyTargets, (usize, usize)),
    /// Carry out a battle command that needs no target.
    BattleAction(BattleAction),
}

} // verus!
