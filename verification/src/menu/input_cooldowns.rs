//! Per-key latches that turn a held key into a single press.

use vstd::prelude::*;

verus! {

/// One latch per key. A set latch means the key has not been released since
/// its last press was taken, so it must not be taken again.
#[derive(Clone, Copy, Debug, PartialEq, Eq, Structural)]
pub struct InputCooldowns {
    pub a: bool,
    pub s: bool,
    pub d: bool,
    pub f: bool,
    pub up: bool,
    pub down: bool,
    pub left: bool,
    pub right: bool,
}

/// Whether a key counts as freshly pressed: it is down and its latch is clear.
pub open spec fn fresh_press(down: bool, latch: bool) -> bool {
    down && !latch
}

/// The latch after looking at the key: set exactly while the key is down.
pub open spec fn latch_after(down: bool) -> bool {
    down
}

impl InputCooldowns {
    /// All latches set, so that keys held while a screen opens are ignored
    /// until they are released.
    pub fn new() -> (c: InputCooldowns)
        ensures
            c == (InputCooldowns {
                a: true,
                s: true,
                d: true,
                f: true,
                up: true,
                down: true,
                left: true,
                right: true,
            }),
    {
        InputCooldowns {
            a: true,
            s: true,
            d: true,
            f: true,
            up: true,
            down: true,
            left: true,
            right: true,
        }
    }
}

/// Looks at one key: reports a fresh press and moves the latch.
pub fn take_press(down: bool, latch: &mut bool) -> (pressed: bool)
    ensures
        pressed == fresh_press(down, *old(latch)),
        *final(latch) == latch_after(down),
{
    let pressed = down && !*latch;
    *latch = down;
    pressed
}

} // verus!
