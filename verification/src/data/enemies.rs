//! The enemies.

use crate::battle::enemy::Enemy;
use crate::dice::Chance;
use crate::party::item::{InventoryItem, ItemVariant};
use vstd::prelude::*;

verus! {

/// Rolls below this make an enemy act on its turn: three in four of all
/// rolls.
pub const ACT_BELOW: u32 = 12_582_912;

/// What the three test enemies share: they stand in the front, suffer no
/// status, carry a potion as common and an ether as rare loot, can be run
/// from and act three turns in four.
pub open spec fn is_test_enemy(
    enemy: Enemy,
    id: u8,
    screen_pos: (i32, i32),
    selection_pos: (usize, usize),
) -> bool {
    &&& enemy.wf()
    &&& enemy.state.id == id
    &&& enemy.screen_pos == screen_pos
    &&& enemy.selection_pos == selection_pos
    &&& enemy.state.hp == enemy.state.max_hp
    &&& enemy.state.mp == enemy.state.max_mp
    &&& enemy.state.poisoned == 0 && enemy.state.sleeping == 0
    &&& !enemy.state.back_row
    &&& enemy.state.common_steal == Some(InventoryItem { variant: ItemVariant::Potion })
    &&& enemy.state.rare_steal == Some(InventoryItem { variant: ItemVariant::Ether })
    &&& enemy.state.character_info is None
    &&& enemy.escapeable
    &&& !enemy.dead
    &&& !enemy.turn_active
    &&& enemy.animation.0 is EndTurn && enemy.animation.1 == 0 && enemy.animation.2 == 0
    &&& enemy.opacity == crate::battle::animation::OPAQUE
    &&& enemy.x_offset == 0
    &&& enemy.state.atb == 0 && enemy.state.atb_subtick == 0
    &&& !enemy.state.turn_active
    &&& enemy.state.print_damage is None
    &&& enemy.act_chance.threshold == ACT_BELOW
}

/// A triangle: two cells tall, the strongest of the three.
pub fn test_triangle(id: u8, screen_pos: (i32, i32), selection_pos: (usize, usize)) -> (enemy: Enemy)
    ensures
        is_test_enemy(enemy, id, screen_pos, selection_pos),
        enemy.name@ == "Triangle"@,
        enemy.spritefile@ == "/enemies/test-triangle.png"@,
        enemy.size == 2,
        enemy.state.level == 3,
        enemy.state.max_hp == 16 && enemy.state.max_mp == 5,
        enemy.state.attack == 6 && enemy.state.defence == 2,
        enemy.state.magic == 2 && enemy.state.resistance == 2,
        enemy.state.agility == 2,
        enemy.state.experience == 15,
{
    Enemy::new(
        id,
        "/enemies/test-triangle.png".to_owned(),
        screen_pos,
        selection_pos,
        2,
        "Triangle".to_owned(),
        3,
        16,
        5,
        6,
        2,
        2,
        2,
        2,
        15,
        0,
        0,
        false,
        Some(InventoryItem::new(ItemVariant::Potion)),
        Some(InventoryItem::new(ItemVariant::Ether)),
        true,
        Chance::from_threshold(ACT_BELOW),
    )
}

/// A circle: one cell tall, quick and frail.
pub fn test_circle(id: u8, screen_pos: (i32, i32), selection_pos: (usize, usize)) -> (enemy: Enemy)
    ensures
        is_test_enemy(enemy, id, screen_pos, selection_pos),
        enemy.name@ == "Circle"@,
        enemy.spritefile@ == "/enemies/test-circle.png"@,
        enemy.size == 1,
        enemy.state.level == 2,
        enemy.state.max_hp == 12 && enemy.state.max_mp == 6,
        enemy.state.attack == 4 && enemy.state.defence == 1,
        enemy.state.magic == 1 && enemy.state.resistance == 2,
        enemy.state.agility == 3,
        enemy.state.experience == 7,
{
    Enemy::new(
        id,
        "/enemies/test-circle.png".to_owned(),
        screen_pos,
        selection_pos,
        1,
        "Circle".to_owned(),
        2,
        12,
        6,
        4,
        1,
        1,
        2,
        3,
        7,
        0,
        0,
        false,
        Some(InventoryItem::new(ItemVariant::Potion)),
        Some(InventoryItem::new(ItemVariant::Ether)),
        true,
        Chance::from_threshold(ACT_BELOW),
    )
}

/// A square: one cell tall, quick and a little sturdier than a circle.
pub fn test_square(id: u8, screen_pos: (i32, i32), selection_pos: (usize, usize)) -> (enemy: Enemy)
    ensures
        is_test_enemy(enemy, id, screen_pos, selection_pos),
        enemy.name@ == "Square"@,
        enemy.spritefile@ == "/enemies/test-square.png"@,
        enemy.size == 1,
        enemy.state.level == 2,
        enemy.state.max_hp == 12 && enemy.state.max_mp == 6,
        enemy.state.attack == 4 && enemy.state.defence == 2,
        enemy.state.magic == 2 && enemy.state.resistance == 2,
        enemy.state.agility == 3,
        enemy.state.experience == 8,
{
    Enemy::new(
        id,
        "/enemies/test-square.png".to_owned(),
        screen_pos,
        selection_pos,
        1,
        "Square".to_owned(),
        2,
        12,
        6,
        4,
        2,
        2,
        2,
        3,
        8,
        0,
        0,
        false,
        Some(InventoryItem::new(ItemVariant::Potion)),
        Some(InventoryItem::new(ItemVariant::Ether)),
        true,
        Chance::from_threshold(ACT_BELOW),
    )
}

} // verus!
