use jrpg_battle::data::enemy_formations::{test_room as formation, test_room_with, PAIR_BELOW};
use jrpg_battle::data::tilemaps::test_room;
use jrpg_battle::dice::{roll, roll_of_word, Chance, ROLL_LIMIT};
use jrpg_battle::menu::item::MenuId;
use jrpg_battle::text::{decimal_string, push_decimal};
use jrpg_battle::tilemap::player::{next_tile, set_entity, ArrowKeys, Player, PlayerAnimation};
use jrpg_battle::tilemap::tile::{EntityOnTile, Tile};
use jrpg_battle::tilemap::Tilemap;
use jrpg_battle::transition::{Transition, TransitionEvent, TransitionStyle};
use jrpg_battle::GameMode;

fn keys(up: bool, down: bool, left: bool, right: bool) -> ArrowKeys {
    ArrowKeys { up, down, left, right }
}

fn still() -> ArrowKeys {
    keys(false, false, false, false)
}

#[test]
fn numerals() {
    assert_eq!(decimal_string(0), "0");
    assert_eq!(decimal_string(7), "7");
    assert_eq!(decimal_string(10), "10");
    assert_eq!(decimal_string(496), "496");
    assert_eq!(decimal_string(65_535), "65535");
    assert_eq!(decimal_string(1_234_567_890), "1234567890");
    assert_eq!(decimal_string(u32::MAX), "4294967295");
    let mut text = "x".to_owned();
    push_decimal(&mut text, 120);
    push_decimal(&mut text, 3);
    assert_eq!(text, "x1203");
    for n in [0u32, 9, 99, 100, 101, 999_999, 1_000_000] {
        assert_eq!(decimal_string(n), n.to_string());
    }
}

#[test]
fn rolls_stay_within_the_limit() {
    assert_eq!(ROLL_LIMIT, 1 << 24);
    let mut seen = std::collections::HashSet::new();
    for _ in 0..200 {
        let r = roll();
        assert!(r < ROLL_LIMIT);
        seen.insert(r);
    }
    // two hundred draws from sixteen million are not all the same
    assert!(seen.len() > 1);
    assert_eq!(roll_of_word(0), 0);
    assert_eq!(roll_of_word(255), 0);
    assert_eq!(roll_of_word(256), 1);
    assert_eq!(roll_of_word(u32::MAX), ROLL_LIMIT - 1);
}

#[test]
fn the_test_room_map() {
    let map = test_room();
    assert_eq!(map.tiles.len(), 5);
    assert!(map.tiles.iter().all(|row| row.len() == 8));
    assert_eq!(map.player.position, (3, 2));
    assert_eq!(map.encounter_rate.threshold, PAIR_BELOW);
    for (y, row) in map.tiles.iter().enumerate() {
        for (x, tile) in row.iter().enumerate() {
            let wall = x == 0 || x == 7 || y == 0 || y == 4;
            let expected = if wall {
                EntityOnTile::Solid
            } else if (x, y) == (3, 2) {
                EntityOnTile::Player
            } else {
                EntityOnTile::Free
            };
            assert_eq!(tile.entity, expected);
        }
    }
    assert_eq!(map.tiles[0][0].spritesheet_pos, (0, 0));
    assert_eq!(map.tiles[0][3].spritesheet_pos, (1, 0));
    assert_eq!(map.tiles[0][7].spritesheet_pos, (2, 0));
    assert_eq!(map.tiles[2][0].spritesheet_pos, (0, 1));
    assert_eq!(map.tiles[2][4].spritesheet_pos, (1, 1));
    assert_eq!(map.tiles[4][7].spritesheet_pos, (2, 2));
}

#[test]
fn a_map_without_a_start_puts_the_player_on_one_one() {
    let row = vec![Tile::new((1, 1), EntityOnTile::Free); 3];
    let map = Tilemap::new(vec![row.clone(), row.clone()], Chance::never());
    assert_eq!(map.player.position, (1, 1));
    let mut marked = vec![row.clone(), row.clone(), row];
    marked[0][2].entity = EntityOnTile::Player;
    marked[2][0].entity = EntityOnTile::Player;
    let map = Tilemap::new(marked, Chance::never());
    // the last tile marked wins
    assert_eq!(map.player.position, (0, 2));
    assert_eq!(Tilemap::new(Vec::new(), Chance::never()).player.position, (1, 1));
}

#[test]
fn a_step_takes_twelve_ticks() {
    let mut map = test_room();
    map.encounter_rate = Chance::from_threshold(10);
    let met = map.update_with(GameMode::Overworld, true, keys(false, false, false, true), 100, 0);
    assert!(!met);
    assert_eq!(map.player.animation, PlayerAnimation::WalkRight);
    assert_eq!(map.player.finish_animation, (PlayerAnimation::WalkRight, 11, 100));
    assert_eq!(map.player.position, (3, 2));
    assert_eq!(map.tiles[2][4].entity, EntityOnTile::Player);
    assert_eq!(map.tiles[2][3].entity, EntityOnTile::Player);
    for tick in 101..111 {
        // keys are not listened to on the way
        assert!(!map.update_with(GameMode::Overworld, true, keys(true, false, false, false), tick, 0));
        assert_eq!(map.player.animation, PlayerAnimation::WalkRight);
    }
    assert_eq!(map.player.frame, 2);
    assert!(map.update_with(GameMode::Overworld, true, still(), 111, 9));
    assert_eq!(map.player.position, (4, 2));
    assert_eq!(map.player.animation, PlayerAnimation::StandRight);
    assert_eq!(map.player.frame, 0);
    assert_eq!(map.tiles[2][3].entity, EntityOnTile::Free);
    assert_eq!(map.tiles[2][4].entity, EntityOnTile::Player);
    assert!(!map.update_with(GameMode::Overworld, true, still(), 112, 0));
    // the same step with a roll that is too high meets nobody
    map.update_with(GameMode::Overworld, true, keys(false, false, true, false), 200, 0);
    for tick in 201..211 {
        map.update_with(GameMode::Overworld, true, still(), tick, 0);
    }
    assert!(!map.update_with(GameMode::Overworld, true, still(), 211, 10));
    assert_eq!(map.player.position, (3, 2));
    assert_eq!(map.player.animation, PlayerAnimation::StandLeft);
}

#[test]
fn walls_and_edges_stop_the_player() {
    let mut map = test_room();
    map.player.position = (1, 1);
    map.update_with(GameMode::Overworld, true, keys(true, false, false, false), 0, 0);
    assert_eq!(map.player.animation, PlayerAnimation::WalkUp);
    assert_eq!(map.player.finish_animation.1, 0);
    assert_eq!(map.tiles[0][1].entity, EntityOnTile::Solid);
    map.update_with(GameMode::Overworld, true, keys(false, false, true, false), 1, 0);
    assert_eq!(map.player.animation, PlayerAnimation::WalkLeft);
    assert_eq!(map.player.position, (1, 1));
    // up wins over the other keys
    map.update_with(GameMode::Overworld, true, keys(true, true, true, true), 2, 0);
    assert_eq!(map.player.animation, PlayerAnimation::WalkUp);
    let open = vec![vec![Tile::new((1, 1), EntityOnTile::Free); 2]; 2];
    let mut bare = Tilemap::new(open, Chance::never());
    bare.player = Player::new((0, 0));
    bare.update_with(GameMode::Overworld, true, keys(true, false, false, false), 0, 0);
    bare.update_with(GameMode::Overworld, true, keys(false, false, true, false), 1, 0);
    assert_eq!(bare.player.finish_animation.1, 0);
    bare.player = Player::new((1, 1));
    bare.update_with(GameMode::Overworld, true, keys(false, true, false, false), 2, 0);
    bare.update_with(GameMode::Overworld, true, keys(false, false, false, true), 3, 0);
    assert_eq!(bare.player.finish_animation.1, 0);
    assert_eq!(next_tile(&bare.tiles, (1, 1), PlayerAnimation::WalkUp), Some((1, 0)));
    assert_eq!(next_tile(&bare.tiles, (1, 1), PlayerAnimation::WalkDown), None);
    assert_eq!(next_tile(&bare.tiles, (usize::MAX, usize::MAX), PlayerAnimation::WalkRight), None);
    assert_eq!(next_tile(&bare.tiles, (0, 0), PlayerAnimation::StandDown), Some((0, 0)));
    set_entity(&mut bare.tiles, (5, 5), EntityOnTile::Solid);
    set_entity(&mut bare.tiles, (1, 0), EntityOnTile::Solid);
    assert_eq!(bare.tiles[0][1].entity, EntityOnTile::Solid);
    assert_eq!(bare.tiles[0][1].spritesheet_pos, (1, 1));
}

#[test]
fn the_map_stands_still_off_the_map_or_during_a_fade() {
    let mut map = test_room();
    let right = keys(false, false, false, true);
    assert!(!map.update_with(GameMode::Battle, true, right, 0, 0));
    assert!(!map.update_with(GameMode::Menu, true, right, 0, 0));
    assert!(!map.update_with(GameMode::Overworld, false, right, 0, 0));
    assert!(!map.update(GameMode::Overworld, false, right, 0));
    assert_eq!(map.player.animation, PlayerAnimation::StandDown);
    assert_eq!(map.player.finish_animation.1, 0);
    map.encounter_rate = Chance::certain();
    map.update(GameMode::Overworld, true, right, 0);
    let mut met = false;
    for tick in 1..12 {
        met = map.update(GameMode::Overworld, true, right, tick);
    }
    assert!(met);
    map.encounter_rate = Chance::never();
    for tick in 12..24 {
        assert!(!map.update(GameMode::Overworld, true, right, tick));
    }
    assert_eq!(map.player.position, (5, 2));
}

#[test]
fn formations_of_the_test_room() {
    let pair = test_room_with(0);
    assert_eq!(pair.len(), 1);
    let ids: Vec<u8> = pair[0].iter().map(|e| e.state.id).collect();
    assert_eq!(ids, vec![5, 6]);
    assert!(pair[0].iter().all(|e| e.name == "Triangle" && e.size == 2));
    assert_eq!(pair[0][1].screen_pos, (0, 2));
    assert_eq!(pair[0][1].selection_pos, (0, 1));
    assert_eq!(test_room_with(PAIR_BELOW - 1).len(), 1);
    let nine = test_room_with(PAIR_BELOW);
    assert_eq!(nine.len(), 3);
    let mut id = 5u8;
    for (c, column) in nine.iter().enumerate() {
        assert_eq!(column.len(), 3);
        for (r, enemy) in column.iter().enumerate() {
            assert_eq!(enemy.state.id, id);
            assert_eq!(enemy.selection_pos, (c, r));
            assert_eq!(enemy.screen_pos, (c as i32, r as i32));
            assert_eq!(enemy.name, if (c * 3 + r) % 2 == 0 { "Circle" } else { "Square" });
            assert!(enemy.state.is_well_formed());
            id += 1;
        }
    }
    for _ in 0..20 {
        let met = formation();
        assert!(met.len() == 1 || met.len() == 3);
    }
    let square = &nine[0][1];
    assert_eq!(
        (square.state.level, square.state.max_hp, square.state.max_mp, square.state.attack),
        (2, 12, 6, 4)
    );
    assert_eq!(
        (square.state.defence, square.state.magic, square.state.resistance, square.state.agility),
        (2, 2, 2, 3)
    );
    assert_eq!(square.state.experience, 8);
    assert_eq!(square.spritefile, "/enemies/test-square.png");
}

#[test]
fn a_fade_runs_in_and_out() {
    let mut fade = Transition::new();
    assert!(fade.is_idle());
    let mut mode = GameMode::Overworld;
    assert!(matches!(fade.finish_phase(&mut mode), TransitionEvent::Nothing));
    assert!(fade.is_idle());
    fade.set(TransitionStyle::WhiteInFast(GameMode::Battle));
    assert!(!fade.is_idle());
    assert!(fade.style == TransitionStyle::WhiteInFast(GameMode::Menu));
    assert!(matches!(fade.finish_phase(&mut mode), TransitionEvent::Nothing));
    assert_eq!(mode, GameMode::Battle);
    assert!(fade.style == TransitionStyle::WhiteOutFast);
    assert!(matches!(fade.finish_phase(&mut mode), TransitionEvent::Nothing));
    assert!(fade.style == TransitionStyle::Idle);
    fade.set(TransitionStyle::MenuIn(MenuId::Main, (0, 2)));
    assert!(matches!(
        fade.finish_phase(&mut mode),
        TransitionEvent::OpenMenu(MenuId::Main, (0, 2))
    ));
    assert_eq!(mode, GameMode::Menu);
    assert!(fade.style == TransitionStyle::MenuOut);
    assert!(matches!(fade.finish_phase(&mut mode), TransitionEvent::Nothing));
    fade.set(TransitionStyle::BlackInFast(GameMode::Overworld));
    fade.finish_phase(&mut mode);
    assert_eq!(mode, GameMode::Overworld);
    assert!(fade.style == TransitionStyle::BlackOutFast);
    // back on the map, the end of the fade puts the menu away
    assert!(matches!(fade.finish_phase(&mut mode), TransitionEvent::CloseMenu));
    assert!(fade.is_idle());
    assert!(TransitionStyle::MenuOut != TransitionStyle::BlackOutFast);
}
