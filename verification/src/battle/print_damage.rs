//! Floating numbers shown over a combatant after it was hit or healed.

use vstd::prelude::*;

verus! {

/// Ticks a floating number stays up.
pub const PRINT_DAMAGE_TICKS: u16 = 120;

/// The colour a floating number is drawn in, which tells what it counts.
#[derive(Clone, Copy, Debug, PartialEq, Eq, Structural)]
pub enum NumberColor {
    /// Hit points lost.
    White,
    /// Hit points restored.
    Green,
    /// Magic points restored.
    Blue,
}

/// One floating number: its value, its colour and the ticks it has left.
#[derive(Clone, Copy, Debug, PartialEq, Eq, Structural)]
pub struct PrintDamage {
    pub value: u32,
    pub color: NumberColor,
    pub show_time: u16,
}

impl PrintDamage {
    /// The number one tick later: one tick less to show, never below zero.
    pub open spec fn ticked(self) -> PrintDamage {
        PrintDamage {
            show_time: if self.show_time > 0 {
                (self.show_time - 1) as u16
            } else {
                0
            },
            ..self
        }
    }

    /// A fresh number with its full time to show.
    pub fn new(value: u32, color: NumberColor) -> (p: PrintDamage)
        ensures
            p == (PrintDamage { value, color, show_time: PRINT_DAMAGE_TICKS }),
    {
        PrintDamage { value, color, show_time: PRINT_DAMAGE_TICKS }
    }

    /// Lets one tick pass.
    pub fn update(&mut self)
        ensures
            *final(self) == old(self).ticked(),
    {
        if self.show_time > 0 {
            self.show_time = self.show_time - 1;
        }
    }
}

} // verus!
