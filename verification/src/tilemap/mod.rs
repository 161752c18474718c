//! The map the party walks over between battles.

pub mod player;
pub mod tile;

use crate::dice::{roll, Chance};
use crate::tilemap::player::{grid_of, ArrowKeys, Player, PlayerAnimation};
use crate::tilemap::tile::{EntityOnTile, Tile};
use crate::GameMode;
use vstd::prelude::*;

verus! {

/// A map: its tiles, row by row, the chance that a step ends in an
/// encounter, and the player on it.
pub struct Tilemap {
    pub tiles: Vec<Vec<Tile>>,
    pub encounter_rate: Chance,
    pub player: Player,
}

/// Where the player starts among the first `n` tiles of a row: on the last
/// tile marked as the player's, or at `start` if none is.
pub open spec fn start_in_row(row: Seq<Tile>, y: int, start: (usize, usize), n: int) -> (
    usize,
    usize,
)
    decreases n,
{
    if n <= 0 {
        start
    } else if row[n - 1].entity == EntityOnTile::Player {
        ((n - 1) as usize, y as usize)
    } else {
        start_in_row(row, y, start, n - 1)
    }
}

/// Where the player starts among the first `n` rows of a map: on the last
/// tile marked as the player's, going row by row, or on column one of row
/// one if none is.
pub open spec fn start_position(grid: Seq<Seq<Tile>>, n: int) -> (usize, usize)
    decreases n,
{
    if n <= 0 {
        (1, 1)
    } else {
        start_in_row(grid[n - 1], n - 1, start_position(grid, n - 1), grid[n - 1].len() as int)
    }
}

impl Tilemap {
    /// A map over the tiles given, with the player on its start.
    pub fn new(tiles: Vec<Vec<Tile>>, encounter_rate: Chance) -> (map: Tilemap)
        ensures
            map.tiles == tiles,
            map.encounter_rate == encounter_rate,
            map.player == (Player {
                position: start_position(grid_of(tiles), tiles@.len() as int),
                animation: PlayerAnimation::StandDown,
                frame: 0,
                finish_animation: (PlayerAnimation::StandDown, 0, 0),
            }),
    {
        let ghost grid = grid_of(tiles);
        let mut player_pos: (usize, usize) = (1, 1);
        let mut j: usize = 0;
        while j < tiles.len()
            invariant
                0 <= j <= tiles.len(),
                grid == grid_of(tiles),
                player_pos == start_position(grid, j as int),
            decreases tiles.len() - j,
        {
            let ghost row_start = player_pos;
            let mut i: usize = 0;
            while i < tiles[j].len()
                invariant
                    0 <= i <= tiles[j as int].len(),
                    j < tiles.len(),
                    grid == grid_of(tiles),
                    player_pos == start_in_row(grid[j as int], j as int, row_start, i as int),
                decreases tiles[j as int].len() - i,
            {
                if tiles[j][i].entity == EntityOnTile::Player {
                    player_pos = (i, j);
                }
                i = i + 1;
            }
            j = j + 1;
        }
        Tilemap { tiles, encounter_rate, player: Player::new(player_pos) }
    }

    /// Lets one tick pass on the map, with the roll given for the
    /// encounter: see `Player::update`. `idle` says that no transition
    /// between modes is under way; while one is, nothing moves.
    pub fn update_with(
        &mut self,
        mode: GameMode,
        idle: bool,
        keys: ArrowKeys,
        tick: usize,
        encounter_roll: u32,
    ) -> (encounter: bool)
        ensures
            mode == GameMode::Overworld && idle ==> final(self).player == old(
                self,
            ).player.after_update(grid_of(old(self).tiles), keys, tick) && grid_of(
                final(self).tiles,
            ) == old(self).player.grid_after_update(grid_of(old(self).tiles), keys),
            !(mode == GameMode::Overworld && idle) ==> final(self).player == old(self).player
                && final(self).tiles == old(self).tiles,
            final(self).encounter_rate == old(self).encounter_rate,
            encounter == (mode == GameMode::Overworld && idle && old(self).player.arrives(
                grid_of(old(self).tiles),
                keys,
            ) && old(self).encounter_rate.hits(encounter_roll)),
    {
        if idle {
            self.player.update(
                &mut self.tiles,
                mode,
                keys,
                tick,
                self.encounter_rate,
                encounter_roll,
            )
        } else {
            false
        }
    }

    /// Lets one tick pass on the map. A fresh roll decides whether a step
    /// that ends on this tick ends in an encounter.
    pub fn update(&mut self, mode: GameMode, idle: bool, keys: ArrowKeys, tick: usize) -> (encounter:
        bool)
        ensures
            mode == GameMode::Overworld && idle ==> final(self).player == old(
                self,
            ).player.after_update(grid_of(old(self).tiles), keys, tick) && grid_of(
                final(self).tiles,
            ) == old(self).player.grid_after_update(grid_of(old(self).tiles), keys),
            !(mode == GameMode::Overworld && idle) ==> final(self).player == old(self).player
                && final(self).tiles == old(self).tiles,
            final(self).encounter_rate == old(self).encounter_rate,
            encounter ==> mode == GameMode::Overworld && idle && old(self).player.arrives(
                grid_of(old(self).tiles),
                keys,
            ) && !old(self).encounter_rate.is_impossible(),
            old(self).encounter_rate.is_certain() ==> encounter == (mode == GameMode::Overworld
                && idle && old(self).player.arrives(grid_of(old(self).tiles), keys)),
    {
        let r = roll();
        self.update_with(mode, idle, keys, tick, r)
    }
}

} // verus!
