//! Fades between the modes of the game.
//!
//! A fade runs in two phases, in and out. How far a phase has come is for
//! the caller to say, who draws it; what the end of a phase does is decided
//! here.

use crate::menu::item::MenuId;
use crate::GameMode;
use vstd::prelude::*;
use vstd::std_specs::cmp::PartialEqSpecImpl;

verus! {

/// The phases of a fade.
#[derive(Clone, Copy, Debug)]
pub enum TransitionStyle {
    /// No fade is under way.
    Idle,
    /// Fading to white; ends by handing over to the mode given.
    WhiteInFast(GameMode),
    /// Fading back from white.
    WhiteOutFast,
    /// Fading to black; ends by handing over to the mode given.
    BlackInFast(GameMode),
    /// Fading back from black.
    BlackOutFast,
    /// Fading to black; ends by opening the menu given, with the cursor at
    /// the position given.
    MenuIn(MenuId, (usize, usize)),
    /// Fading back from black onto a menu.
    MenuOut,
}

impl TransitionStyle {
    /// Whether the two are the same phase, whatever they hand over to.
    pub open spec fn same_phase(self, other: TransitionStyle) -> bool {
        match self {
            TransitionStyle::Idle => other is Idle,
            TransitionStyle::WhiteInFast(_) => other is WhiteInFast,
            TransitionStyle::WhiteOutFast => other is WhiteOutFast,
            TransitionStyle::BlackInFast(_) => other is BlackInFast,
            TransitionStyle::BlackOutFast => other is BlackOutFast,
            TransitionStyle::MenuIn(_, _) => other is MenuIn,
            TransitionStyle::MenuOut => other is MenuOut,
        }
    }

    /// The phase that follows when this one ends: a fade in is followed by
    /// its fade out, a fade out by no fade.
    pub open spec fn followed_by(self) -> TransitionStyle {
        match self {
            TransitionStyle::WhiteInFast(_) => TransitionStyle::WhiteOutFast,
            TransitionStyle::BlackInFast(_) => TransitionStyle::BlackOutFast,
            TransitionStyle::MenuIn(_, _) => TransitionStyle::MenuOut,
            _ => TransitionStyle::Idle,
        }
    }

    /// The mode after this phase has ended: a fade in hands over, to the
    /// mode it names or to the menu.
    pub open spec fn mode_after(self, mode: GameMode) -> GameMode {
        match self {
            TransitionStyle::WhiteInFast(new_mode) => new_mode,
            TransitionStyle::BlackInFast(new_mode) => new_mode,
            TransitionStyle::MenuIn(_, _) => GameMode::Menu,
            _ => mode,
        }
    }

    /// What the end of this phase asks of the caller.
    pub open spec fn event_after(self, mode: GameMode) -> TransitionEvent {
        match self {
            TransitionStyle::MenuIn(menu, cursor_start) => TransitionEvent::OpenMenu(
                menu,
                cursor_start,
            ),
            TransitionStyle::WhiteInFast(_) => TransitionEvent::Nothing,
            TransitionStyle::BlackInFast(_) => TransitionEvent::Nothing,
            TransitionStyle::Idle => TransitionEvent::Nothing,
            _ => if mode == GameMode::Overworld {
                TransitionEvent::CloseMenu
            } else {
                TransitionEvent::Nothing
            },
        }
    }
}

impl PartialEq for TransitionStyle {
    /// Phases are equal if they are the same phase, whatever they hand over to.
    fn eq(&self, other: &Self) -> (same: bool) {
        match self {
            TransitionStyle::Idle => match other {
                TransitionStyle::Idle => true,
                _ => false,
            },
            TransitionStyle::WhiteInFast(_) => match other {
                TransitionStyle::WhiteInFast(_) => true,
                _ => false,
            },
            TransitionStyle::WhiteOutFast => match other {
                TransitionStyle::WhiteOutFast => true,
                _ => false,
            },
            TransitionStyle::BlackInFast(_) => match other {
                TransitionStyle::BlackInFast(_) => true,
                _ => false,
            },
            TransitionStyle::BlackOutFast => match other {
                TransitionStyle::BlackOutFast => true,
                _ => false,
            },
            TransitionStyle::MenuIn(_, _) => match other {
                TransitionStyle::MenuIn(_, _) => true,
                _ => false,
            },
            TransitionStyle::MenuOut => match other {
                TransitionStyle::MenuOut => true,
                _ => false,
            },
        }
    }
}

impl PartialEqSpecImpl for TransitionStyle {
    open spec fn obeys_eq_spec() -> bool {
        true
    }

    open spec fn eq_spec(&self, other: &Self) -> bool {
        self.same_phase(*other)
    }
}

/// What the end of a phase asks of the caller.
#[derive(Clone, Copy, Debug)]
pub enum TransitionEvent {
    Nothing,
    /// Open the menu given, with the cursor at the position given.
    OpenMenu(MenuId, (usize, usize)),
    /// Back on the map: put the menu away.
    CloseMenu,
}

/// The fade under way, if any.
#[derive(Clone, Copy, Debug)]
pub struct Transition {
    pub style: TransitionStyle,
}

impl Transition {
    /// No fade.
    pub fn new() -> (transition: Transition)
        ensures
            transition.style is Idle,
    {
        Transition { style: TransitionStyle::Idle }
    }

    /// Starts the fade given.
    pub fn set(&mut self, transition: TransitionStyle)
        ensures
            final(self).style == transition,
    {
        self.style = transition;
    }

    /// Whether no fade is under way.
    pub fn is_idle(&self) -> (idle: bool)
        ensures
            idle == (self.style is Idle),
    {
        match self.style {
            TransitionStyle::Idle => true,
            _ => false,
        }
    }

    /// Ends the phase under way: hands over to the mode or menu the phase
    /// names and goes on to the phase that follows.
    pub fn finish_phase(&mut self, mode: &mut GameMode) -> (event: TransitionEvent)
        ensures
            final(self).style == old(self).style.followed_by(),
            *final(mode) == old(self).style.mode_after(*old(mode)),
            event == old(self).style.event_after(*old(mode)),
    {
        let event = match self.style {
            TransitionStyle::Idle => TransitionEvent::Nothing,
            TransitionStyle::WhiteInFast(new_mode) => {
                *mode = new_mode;
                TransitionEvent::Nothing
            },
            TransitionStyle::BlackInFast(new_mode) => {
                *mode = new_mode;
                TransitionEvent::Nothing
            },
            TransitionStyle::MenuIn(menu, cursor_start) => {
                *mode = GameMode::Menu;
                TransitionEvent::OpenMenu(menu, cursor_start)
            },
            _ => match mode {
                GameMode::Overworld => TransitionEvent::CloseMenu,
                _ => TransitionEvent::Nothing,
            },
        };
        self.style = match self.style {
            TransitionStyle::WhiteInFast(_) => TransitionStyle::WhiteOutFast,
            TransitionStyle::BlackInFast(_) => TransitionStyle::BlackOutFast,
            TransitionStyle::MenuIn(_, _) => TransitionStyle::MenuOut,
            _ => TransitionStyle::Idle,
        };
        event
    }
}

/// Every fade comes to rest: a fade in is followed by a fade out and a fade
/// out by no fade, so two phases on no fade is under way.
pub proof fn lemma_fade_ends(style: TransitionStyle)
    ensures
        style.followed_by().followed_by() is Idle,
        style is Idle ==> style.followed_by() is Idle,
{
}

} // verus!
