//! The player's walk over the map, one tile at a time.

use crate::battle::animation::{elapsed, step_frame, ticks_since, walk_frame};
use crate::dice::Chance;
use crate::tilemap::tile::{EntityOnTile, Tile};
use crate::GameMode;
use vstd::prelude::*;

verus! {

/// Ticks a step from one tile to the next takes.
pub const WALK_TICKS: usize = 12;

/// The poses of the player on the map.
#[derive(Clone, Copy, Debug, PartialEq, Eq, Structural)]
pub enum PlayerAnimation {
    StandLeft,
    WalkLeft,
    StandRight,
    WalkRight,
    StandUp,
    WalkUp,
    StandDown,
    WalkDown,
}

/// The arrow keys, each down or not.
#[derive(Clone, Copy, Debug, PartialEq, Eq, Structural)]
pub struct ArrowKeys {
    pub up: bool,
    pub down: bool,
    pub left: bool,
    pub right: bool,
}

/// The player on the map.
///
/// `position` is the tile the player stands on, as column and row; during a
/// step it is still the tile the step started from. `finish_animation` is
/// the step under way: its pose, the ticks it has left and the tick it
/// started on.
#[derive(Clone, Copy, Debug)]
pub struct Player {
    pub position: (usize, usize),
    pub animation: PlayerAnimation,
    pub frame: u8,
    pub finish_animation: (PlayerAnimation, usize, usize),
}

/// The map's tiles as a value: its rows, each a sequence of tiles.
pub open spec fn grid_of(tiles: Vec<Vec<Tile>>) -> Seq<Seq<Tile>> {
    Seq::new(tiles@.len(), |i: int| tiles@[i]@)
}

/// The walking pose the keys ask for: the first of up, down, left, right
/// that is down.
pub open spec fn pose_asked(keys: ArrowKeys) -> Option<PlayerAnimation> {
    if keys.up {
        Some(PlayerAnimation::WalkUp)
    } else if keys.down {
        Some(PlayerAnimation::WalkDown)
    } else if keys.left {
        Some(PlayerAnimation::WalkLeft)
    } else if keys.right {
        Some(PlayerAnimation::WalkRight)
    } else {
        None
    }
}

/// The tile next to `position` in the direction of the walking pose, if the
/// map has one there.
pub open spec fn neighbour(grid: Seq<Seq<Tile>>, position: (usize, usize), pose: PlayerAnimation) -> Option<
    (usize, usize),
> {
    let (x, y) = (position.0 as int, position.1 as int);
    let (tx, ty) = match pose {
        PlayerAnimation::WalkUp => (x, y - 1),
        PlayerAnimation::WalkDown => (x, y + 1),
        PlayerAnimation::WalkLeft => (x - 1, y),
        PlayerAnimation::WalkRight => (x + 1, y),
        _ => (x, y),
    };
    if 0 <= ty < grid.len() && 0 <= tx < grid[ty].len() {
        Some((tx as usize, ty as usize))
    } else {
        None
    }
}

/// The map with what stands on the tile at `position` set to `entity`; a
/// position off the map changes nothing.
pub open spec fn with_entity(grid: Seq<Seq<Tile>>, position: (usize, usize), entity: EntityOnTile) -> Seq<
    Seq<Tile>,
> {
    let (x, y) = (position.0 as int, position.1 as int);
    if 0 <= y < grid.len() && 0 <= x < grid[y].len() {
        grid.update(y, grid[y].update(x, Tile { entity, ..grid[y][x] }))
    } else {
        grid
    }
}

/// The standing pose a walking pose ends in.
pub open spec fn standing(pose: PlayerAnimation) -> PlayerAnimation {
    match pose {
        PlayerAnimation::WalkLeft => PlayerAnimation::StandLeft,
        PlayerAnimation::WalkRight => PlayerAnimation::StandRight,
        PlayerAnimation::WalkUp => PlayerAnimation::StandUp,
        PlayerAnimation::WalkDown => PlayerAnimation::StandDown,
        _ => pose,
    }
}

impl Player {
    /// Whether the player sets out on a step on this tick: it is at rest, a
    /// key asks for a direction, and the tile there is on the map and free.
    pub open spec fn sets_out(self, grid: Seq<Seq<Tile>>, keys: ArrowKeys) -> bool {
        self.finish_animation.1 == 0 && (pose_asked(keys) matches Some(pose) && (neighbour(
            grid,
            self.position,
            pose,
        ) matches Some(to) && grid[to.1 as int][to.0 as int].entity == EntityOnTile::Free))
    }

    /// Whether the step under way ends on this tick.
    pub open spec fn arrives(self, grid: Seq<Seq<Tile>>, keys: ArrowKeys) -> bool {
        !self.sets_out(grid, keys) && self.finish_animation.1 == 1
    }

    /// The player one tick later, on the map.
    ///
    /// At rest, a key turns the player; if the tile that way is free, the
    /// player claims it and sets out. Under way, the walk cycle moves on;
    /// on the last tick the player arrives on the tile it set out for and
    /// stands.
    pub open spec fn after_update(self, grid: Seq<Seq<Tile>>, keys: ArrowKeys, tick: usize) -> Player {
        let turned = if self.finish_animation.1 == 0 {
            match pose_asked(keys) {
                Some(pose) => Player { animation: pose, ..self },
                None => self,
            }
        } else {
            self
        };
        let started = if self.sets_out(grid, keys) {
            Player { finish_animation: (turned.animation, WALK_TICKS, tick), ..turned }
        } else {
            turned
        };
        if started.finish_animation.1 > 0 {
            let walked = Player {
                finish_animation: (
                    started.finish_animation.0,
                    (started.finish_animation.1 - 1) as usize,
                    started.finish_animation.2,
                ),
                frame: walk_frame(started.frame, elapsed(tick, started.finish_animation.2)),
                ..started
            };
            if walked.finish_animation.1 == 0 {
                Player {
                    position: match neighbour(grid, self.position, self.finish_animation.0) {
                        Some(to) => to,
                        None => self.position,
                    },
                    frame: 0,
                    animation: standing(walked.animation),
                    ..walked
                }
            } else {
                walked
            }
        } else {
            started
        }
    }

    /// The map one tick later: the tile the player sets out for is claimed,
    /// and the tile the player has left is given up on arrival.
    pub open spec fn grid_after_update(self, grid: Seq<Seq<Tile>>, keys: ArrowKeys) -> Seq<Seq<Tile>> {
        if self.sets_out(grid, keys) {
            with_entity(
                grid,
                neighbour(grid, self.position, pose_asked(keys).unwrap()).unwrap(),
                EntityOnTile::Player,
            )
        } else if self.arrives(grid, keys) && neighbour(
            grid,
            self.position,
            self.finish_animation.0,
        ) is Some {
            with_entity(grid, self.position, EntityOnTile::Free)
        } else {
            grid
        }
    }

    /// The player standing on `position`, facing down.
    pub fn new(position: (usize, usize)) -> (player: Player)
        ensures
            player.position == position,
            player.animation == PlayerAnimation::StandDown,
            player.frame == 0,
            player.finish_animation == (PlayerAnimation::StandDown, 0usize, 0usize),
    {
        Player {
            position,
            animation: PlayerAnimation::StandDown,
            frame: 0,
            finish_animation: (PlayerAnimation::StandDown, 0, 0),
        }
    }

    /// Lets one tick pass with the keys as given and the roll given for the
    /// encounter. Off the map mode nothing moves. Says whether the player,
    /// arriving on a tile, runs into enemies: that is decided by the roll
    /// against `encounter_rate`.
    pub fn update(
        &mut self,
        tiles: &mut Vec<Vec<Tile>>,
        mode: GameMode,
        keys: ArrowKeys,
        tick: usize,
        encounter_rate: Chance,
        encounter_roll: u32,
    ) -> (encounter: bool)
        ensures
            mode == GameMode::Overworld ==> *final(self) == old(self).after_update(
                grid_of(*old(tiles)),
                keys,
                tick,
            ) && grid_of(*final(tiles)) == old(self).grid_after_update(grid_of(*old(tiles)), keys),
            mode != GameMode::Overworld ==> *final(self) == *old(self) && *final(tiles) == *old(
                tiles,
            ),
            encounter == (mode == GameMode::Overworld && old(self).arrives(
                grid_of(*old(tiles)),
                keys,
            ) && encounter_rate.hits(encounter_roll)),
    {
        let on_map = match mode {
            GameMode::Overworld => true,
            _ => false,
        };
        if !on_map {
            return false;
        }
        let from = self.position;
        let resting = self.finish_animation.1 == 0;
        if resting {
            let asked = if keys.up {
                Some(PlayerAnimation::WalkUp)
            } else if keys.down {
                Some(PlayerAnimation::WalkDown)
            } else if keys.left {
                Some(PlayerAnimation::WalkLeft)
            } else if keys.right {
                Some(PlayerAnimation::WalkRight)
            } else {
                None
            };
            match asked {
                Some(pose) => {
                    self.animation = pose;
                    match next_tile(tiles, from, pose) {
                        Some(to) => {
                            if tiles[to.1][to.0].entity == EntityOnTile::Free {
                                set_entity(tiles, to, EntityOnTile::Player);
                                self.finish_animation = (pose, WALK_TICKS, tick);
                            }
                        },
                        None => {},
                    }
                },
                None => {},
            }
        }
        if self.finish_animation.1 > 0 {
            let pose = self.finish_animation.0;
            self.finish_animation.1 = self.finish_animation.1 - 1;
            self.frame = step_frame(self.frame, ticks_since(tick, self.finish_animation.2));
            if self.finish_animation.1 == 0 {
                match next_tile(tiles, from, pose) {
                    Some(to) => {
                        self.position = to;
                        set_entity(tiles, from, EntityOnTile::Free);
                    },
                    None => {},
                }
                self.frame = 0;
                self.animation = match self.animation {
                    PlayerAnimation::WalkRight => PlayerAnimation::StandRight,
                    PlayerAnimation::WalkLeft => PlayerAnimation::StandLeft,
                    PlayerAnimation::WalkUp => PlayerAnimation::StandUp,
                    PlayerAnimation::WalkDown => PlayerAnimation::StandDown,
                    other => other,
                };
                encounter_rate.is_hit(encounter_roll)
            } else {
                false
            }
        } else {
            false
        }
    }
}

/// The tile next to `position` in the direction of the walking pose, if the
/// map has one there.
pub fn next_tile(tiles: &Vec<Vec<Tile>>, position: (usize, usize), pose: PlayerAnimation) -> (to:
    Option<(usize, usize)>)
    ensures
        to == neighbour(grid_of(*tiles), position, pose),
        to matches Some(t) ==> t.1 < tiles.len() && t.0 < tiles[t.1 as int].len(),
{
    let (x, y) = position;
    let rows = tiles.len();
    let columns = if y < rows {
        tiles[y].len()
    } else {
        0
    };
    let target = match pose {
        PlayerAnimation::WalkUp => if y > 0 {
            Some((x, y - 1))
        } else {
            None
        },
        PlayerAnimation::WalkDown => if y < usize::MAX {
            Some((x, y + 1))
        } else {
            None
        },
        PlayerAnimation::WalkLeft => if x > 0 {
            Some((x - 1, y))
        } else {
            None
        },
        PlayerAnimation::WalkRight => if x < usize::MAX {
            Some((x + 1, y))
        } else {
            None
        },
        _ => Some((x, y)),
    };
    match target {
        Some((tx, ty)) => {
            if ty < rows && tx < tiles[ty].len() {
                Some((tx, ty))
            } else {
                None
            }
        },
        None => None,
    }
}

/// Sets what stands on the tile at `position`, if the map has that tile.
pub fn set_entity(tiles: &mut Vec<Vec<Tile>>, position: (usize, usize), entity: EntityOnTile)
    ensures
        grid_of(*final(tiles)) == with_entity(grid_of(*old(tiles)), position, entity),
{
    let ghost before = grid_of(*tiles);
    let (x, y) = position;
    if y < tiles.len() && x < tiles[y].len() {
        tiles[y][x].entity = entity;
        assert(grid_of(*tiles)[y as int] =~= before[y as int].update(
            x as int,
            Tile { entity, ..before[y as int][x as int] },
        ));
        assert(grid_of(*tiles) =~= with_entity(before, position, entity));
    } else {
        assert(grid_of(*tiles) =~= before);
    }
}

} // verus!
