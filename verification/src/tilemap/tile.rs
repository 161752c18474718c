//! The tiles of a map.

use vstd::prelude::*;

verus! {

/// What stands on a tile.
#[derive(Clone, Copy, Debug, PartialEq, Eq, Structural)]
pub enum EntityOnTile {
    /// Nothing: the tile can be walked onto.
    Free,
    /// Something that cannot be walked through.
    Solid,
    /// The player, or the player's claim on the tile it is walking to.
    Player,
}

/// A tile: the cell of the tile sheet it is drawn from and what stands on it.
#[derive(Clone, Copy, Debug, PartialEq, Eq)]
pub struct Tile {
    pub spritesheet_pos: (u8, u8),
    pub entity: EntityOnTile,
}

impl Tile {
    pub fn new(spritesheet_pos: (u8, u8), entity: EntityOnTile) -> (tile: Tile)
        ensures
            tile.spritesheet_pos == spritesheet_pos,
            tile.entity == entity,
    {
        Tile { spritesheet_pos, entity }
    }
}

} // verus!
