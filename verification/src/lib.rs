//! A turn-based battle engine: active-time turn order, action resolution,
//! status effects and the animation clocks that sequence them.
//!
//! Everything here is a pure, tick-driven simulation. Rendering, input and
//! asset loading live with the caller, which feeds the engine the current
//! tick and the player's command and draws what the engine reports.

pub mod dice;
pub mod text;
pub mod tilemap;
pub mod transition;
pub mod menu;
pub mod battle;
pub mod data;
pub mod party;

use vstd::prelude::*;

verus! {

/// Which screen currently owns the simulation.
#[derive(Clone, Copy, Debug, PartialEq, Eq, Structural)]
pub enum GameMode {
    Overworld,
    Menu,
    Battle,
}

} // verus!
