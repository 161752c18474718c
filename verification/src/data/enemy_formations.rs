//! The formations the party can run into.

use crate::battle::enemy::Enemy;
use crate::battle::{roster_of, roster_wf};
use crate::data::enemies::{is_test_enemy, test_circle, test_square, test_triangle};
use crate::dice::roll;
use vstd::prelude::*;

verus! {

/// Rolls below this meet the pair of triangles: nine in ten of all rolls.
pub const PAIR_BELOW: u32 = 15_099_494;

/// Rolls below this, and not below `PAIR_BELOW`, meet the trio. As the two
/// bounds stand, no roll does.
pub const TRIO_BELOW: u32 = 11_184_811;

/// The formations of the test room.
#[derive(Clone, Copy, Debug, PartialEq, Eq, Structural)]
pub enum TestRoomFormation {
    /// Two triangles in one column.
    Pair,
    /// A circle and a square in the first column, a triangle in the second.
    Trio,
    /// Three columns of three, circles and squares in turn.
    Nine,
}

/// The formation the roll meets.
pub open spec fn test_room_formation(roll: u32) -> TestRoomFormation {
    if roll < PAIR_BELOW {
        TestRoomFormation::Pair
    } else if roll < TRIO_BELOW {
        TestRoomFormation::Trio
    } else {
        TestRoomFormation::Nine
    }
}

/// Whether `roster` has the shape of `formation`: its columns, their
/// lengths, and each enemy's id and place.
pub open spec fn has_shape(roster: Seq<Seq<Enemy>>, formation: TestRoomFormation) -> bool {
    match formation {
        TestRoomFormation::Pair => {
            &&& roster.len() == 1
            &&& roster[0].len() == 2
            &&& is_test_enemy(roster[0][0], 5, (0, 0), (0, 0)) && roster[0][0].size == 2
            &&& is_test_enemy(roster[0][1], 6, (0, 2), (0, 1)) && roster[0][1].size == 2
        },
        TestRoomFormation::Trio => {
            &&& roster.len() == 2
            &&& roster[0].len() == 2
            &&& roster[1].len() == 1
            &&& is_test_enemy(roster[0][0], 5, (0, 0), (0, 0))
            &&& is_test_enemy(roster[0][1], 6, (0, 1), (0, 1))
            &&& is_test_enemy(roster[1][0], 7, (1, 0), (1, 0))
        },
        TestRoomFormation::Nine => {
            &&& roster.len() == 3
            &&& forall|i: int| 0 <= i < 3 ==> (#[trigger] roster[i]).len() == 3
            &&& forall|i: int, j: int|
                0 <= i < 3 && 0 <= j < 3 ==> is_test_enemy(
                    #[trigger] roster[i][j],
                    (5 + 3 * i + j) as u8,
                    (i as i32, j as i32),
                    (i as usize, j as usize),
                )
        },
    }
}

/// The formation of the test room that the roll meets.
pub fn test_room_with(roll: u32) -> (enemies: Vec<Vec<Enemy>>)
    ensures
        has_shape(roster_of(enemies), test_room_formation(roll)),
        roster_wf(roster_of(enemies)),
{
    if roll < PAIR_BELOW {
        let mut column: Vec<Enemy> = Vec::new();
        column.push(test_triangle(5, (0, 0), (0, 0)));
        column.push(test_triangle(6, (0, 2), (0, 1)));
        let mut enemies: Vec<Vec<Enemy>> = Vec::new();
        enemies.push(column);
        enemies
    } else if roll < TRIO_BELOW {
        let mut first: Vec<Enemy> = Vec::new();
        first.push(test_circle(5, (0, 0), (0, 0)));
        first.push(test_square(6, (0, 1), (0, 1)));
        let mut second: Vec<Enemy> = Vec::new();
        second.push(test_triangle(7, (1, 0), (1, 0)));
        let mut enemies: Vec<Vec<Enemy>> = Vec::new();
        enemies.push(first);
        enemies.push(second);
        enemies
    } else {
        let mut first: Vec<Enemy> = Vec::new();
        first.push(test_circle(5, (0, 0), (0, 0)));
        first.push(test_square(6, (0, 1), (0, 1)));
        first.push(test_circle(7, (0, 2), (0, 2)));
        let mut second: Vec<Enemy> = Vec::new();
        second.push(test_square(8, (1, 0), (1, 0)));
        second.push(test_circle(9, (1, 1), (1, 1)));
        second.push(test_square(10, (1, 2), (1, 2)));
        let mut third: Vec<Enemy> = Vec::new();
        third.push(test_circle(11, (2, 0), (2, 0)));
        third.push(test_square(12, (2, 1), (2, 1)));
        third.push(test_circle(13, (2, 2), (2, 2)));
        let mut enemies: Vec<Vec<Enemy>> = Vec::new();
        enemies.push(first);
        enemies.push(second);
        enemies.push(third);
        enemies
    }
}

/// A formation of the test room, picked by a fresh roll.
pub fn test_room() -> (enemies: Vec<Vec<Enemy>>)
    ensures
        exists|r: u32|
            crate::dice::valid_roll(r) && has_shape(
                roster_of(enemies),
                #[trigger] test_room_formation(r),
            ),
        roster_wf(roster_of(enemies)),
{
    let r = roll();
    let enemies = test_room_with(r);
    assert(has_shape(roster_of(enemies), test_room_formation(r)));
    enemies
}

} // verus!
