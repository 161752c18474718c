//! The animation clock shared by party members and enemies.
//!
//! A clock is a triple: the phase being played, the ticks it has left and
//! the tick on which it started. While ticks are left, each tick takes one
//! away and moves what the phase moves; the tick that takes the last one
//! away also does what the phase does on ending.

use vstd::prelude::*;

verus! {

/// Full opacity; an opacity counts twentieths.
pub const OPAQUE: u8 = 20;

/// Ticks a combatant flashes after it was hit.
pub const HURT_TICKS: usize = 60;

/// Ticks a dying combatant takes to fade.
pub const DEAD_TICKS: usize = 20;

/// Ticks that have passed since `start`; none if `tick` lies before it.
pub open spec fn elapsed(tick: usize, start: usize) -> usize {
    if tick >= start {
        (tick - start) as usize
    } else {
        0
    }
}

/// `x` moved by `d` pixels, stopping at the ends of the coordinate range.
pub open spec fn shifted(x: i32, d: int) -> i32 {
    if x + d > i32::MAX {
        i32::MAX
    } else if x + d < i32::MIN {
        i32::MIN
    } else {
        (x + d) as i32
    }
}

/// The opacity of a combatant that was hit, `time` ticks into the flash:
/// between the tenth and the thirtieth tick it is switched to full on every
/// tenth tick and to none on every other fifth; else it stays as it is.
pub open spec fn hurt_opacity(opacity: u8, time: usize) -> u8 {
    if time > 10 && time <= 30 {
        if time % 10 == 0 {
            OPAQUE
        } else if time % 5 == 0 {
            0
        } else {
            opacity
        }
    } else {
        opacity
    }
}

/// The opacity of a dying combatant one tick on: a twentieth less.
pub open spec fn faded(opacity: u8) -> u8 {
    if opacity > 0 {
        (opacity - 1) as u8
    } else {
        0
    }
}

/// The frame of a walk cycle `time` ticks in: the cycle lasts twelve ticks
/// and shows the frames 1, 0, 2, 0, each switched in on its own tick.
pub open spec fn walk_frame(frame: u8, time: usize) -> u8 {
    let phase = time % 12;
    if phase == 2 {
        1
    } else if phase == 5 {
        0
    } else if phase == 8 {
        2
    } else if phase == 11 {
        0
    } else {
        frame
    }
}

pub fn ticks_since(tick: usize, start: usize) -> (time: usize)
    ensures
        time == elapsed(tick, start),
{
    if tick >= start {
        tick - start
    } else {
        0
    }
}

pub fn shift(x: i32, d: i32) -> (moved: i32)
    ensures
        moved == shifted(x, d as int),
{
    let sum: i64 = x as i64 + d as i64;
    if sum > i32::MAX as i64 {
        i32::MAX
    } else if sum < i32::MIN as i64 {
        i32::MIN
    } else {
        sum as i32
    }
}

pub fn flash(opacity: u8, time: usize) -> (next: u8)
    ensures
        next == hurt_opacity(opacity, time),
{
    if time > 10 && time <= 30 {
        if time % 10 == 0 {
            OPAQUE
        } else if time % 5 == 0 {
            0
        } else {
            opacity
        }
    } else {
        opacity
    }
}

pub fn fade(opacity: u8) -> (next: u8)
    ensures
        next == faded(opacity),
{
    if opacity > 0 {
        opacity - 1
    } else {
        0
    }
}

pub fn step_frame(frame: u8, time: usize) -> (next: u8)
    ensures
        next == walk_frame(frame, time),
{
    let phase = time % 12;
    if phase == 2 {
        1
    } else if phase == 5 {
        0
    } else if phase == 8 {
        2
    } else if phase == 11 {
        0
    } else {
        frame
    }
}

} // verus!
