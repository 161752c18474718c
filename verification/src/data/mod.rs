//! The cast: who fights, with what, and in which formations.

pub mod characters;
pub mod enemies;
pub mod enemy_formations;
pub mod menus;
pub mod tilemaps;
