//! The maps.

use crate::dice::Chance;
use crate::tilemap::player::{grid_of, Player, PlayerAnimation};
use crate::tilemap::tile::{EntityOnTile, Tile};
use crate::tilemap::Tilemap;
use vstd::prelude::*;

verus! {

/// Rolls below this end a step in the test room in an encounter: nine in
/// ten of all rolls.
pub const TEST_ROOM_ENCOUNTER_BELOW: u32 = 15_099_494;

/// Columns of the test room.
pub const TEST_ROOM_WIDTH: usize = 8;

/// Rows of the test room.
pub const TEST_ROOM_HEIGHT: usize = 5;

/// The tile of the test room at column `x` of row `y`: a wall all around a
/// free floor, drawn from the three-by-three sheet of corners, edges and
/// centre, with the player's start on column three of row two.
pub open spec fn test_room_tile(x: int, y: int) -> Tile {
    let sheet_x: u8 = if x == 0 {
        0
    } else if x == TEST_ROOM_WIDTH - 1 {
        2
    } else {
        1
    };
    let sheet_y: u8 = if y == 0 {
        0
    } else if y == TEST_ROOM_HEIGHT - 1 {
        2
    } else {
        1
    };
    Tile {
        spritesheet_pos: (sheet_x, sheet_y),
        entity: if sheet_x != 1 || sheet_y != 1 {
            EntityOnTile::Solid
        } else if x == 3 && y == 2 {
            EntityOnTile::Player
        } else {
            EntityOnTile::Free
        },
    }
}

/// One row of the test room.
fn test_room_row(y: usize) -> (row: Vec<Tile>)
    requires
        y < TEST_ROOM_HEIGHT,
    ensures
        row@.len() == TEST_ROOM_WIDTH,
        forall|x: int| 0 <= x < TEST_ROOM_WIDTH ==> (#[trigger] row@[x]) == test_room_tile(x, y as int),
{
    let sheet_y: u8 = if y == 0 {
        0
    } else if y == TEST_ROOM_HEIGHT - 1 {
        2
    } else {
        1
    };
    let mut row: Vec<Tile> = Vec::new();
    let mut x: usize = 0;
    while x < TEST_ROOM_WIDTH
        invariant
            0 <= x <= TEST_ROOM_WIDTH,
            y < TEST_ROOM_HEIGHT,
            sheet_y == test_room_tile(0, y as int).spritesheet_pos.1,
            row@.len() == x,
            forall|k: int| 0 <= k < x ==> (#[trigger] row@[k]) == test_room_tile(k, y as int),
        decreases TEST_ROOM_WIDTH - x,
    {
        let sheet_x: u8 = if x == 0 {
            0
        } else if x == TEST_ROOM_WIDTH - 1 {
            2
        } else {
            1
        };
        let entity = if sheet_x != 1 || sheet_y != 1 {
            EntityOnTile::Solid
        } else if x == 3 && y == 2 {
            EntityOnTile::Player
        } else {
            EntityOnTile::Free
        };
        row.push(Tile::new((sheet_x, sheet_y), entity));
        x = x + 1;
    }
    row
}

/// The test room: a walled room of eight by five tiles.
pub fn test_room() -> (map: Tilemap)
    ensures
        grid_of(map.tiles).len() == TEST_ROOM_HEIGHT,
        forall|y: int|
            0 <= y < TEST_ROOM_HEIGHT ==> (#[trigger] grid_of(map.tiles)[y]).len() == TEST_ROOM_WIDTH,
        forall|x: int, y: int|
            0 <= x < TEST_ROOM_WIDTH && 0 <= y < TEST_ROOM_HEIGHT ==> (#[trigger] grid_of(
                map.tiles,
            )[y][x]) == test_room_tile(x, y),
        map.encounter_rate.threshold == TEST_ROOM_ENCOUNTER_BELOW,
        map.player == (Player {
            position: crate::tilemap::start_position(grid_of(map.tiles), TEST_ROOM_HEIGHT as int),
            animation: PlayerAnimation::StandDown,
            frame: 0,
            finish_animation: (PlayerAnimation::StandDown, 0, 0),
        }),
{
    let mut tiles: Vec<Vec<Tile>> = Vec::new();
    let mut y: usize = 0;
    while y < TEST_ROOM_HEIGHT
        invariant
            0 <= y <= TEST_ROOM_HEIGHT,
            tiles@.len() == y,
            forall|r: int| 0 <= r < y ==> (#[trigger] tiles@[r])@.len() == TEST_ROOM_WIDTH,
            forall|r: int, x: int|
                0 <= r < y && 0 <= x < TEST_ROOM_WIDTH ==> (#[trigger] tiles@[r]@[x])
                    == test_room_tile(x, r),
        decreases TEST_ROOM_HEIGHT - y,
    {
        tiles.push(test_room_row(y));
        y = y + 1;
    }
    Tilemap::new(tiles, Chance::from_threshold(TEST_ROOM_ENCOUNTER_BELOW))
}

} // verus!
