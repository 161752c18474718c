use jrpg_battle::battle::enemy::Enemy;
use jrpg_battle::battle::Battle;
use jrpg_battle::data::enemies::{test_circle, test_square, test_triangle};
use jrpg_battle::party::Party;

fn grid(columns: usize, rows: usize) -> Vec<Vec<Enemy>> {
    let mut enemies = Vec::new();
    let mut id = 5u8;
    for c in 0..columns {
        let mut column = Vec::new();
        for r in 0..rows {
            column.push(test_circle(id, (c as i32, r as i32), (c, r)));
            id += 1;
        }
        enemies.push(column);
    }
    enemies
}

fn places(battle: &Battle) -> Vec<Vec<(u8, (usize, usize))>> {
    battle
        .enemies
        .iter()
        .map(|column| column.iter().map(|e| (e.state.id, e.selection_pos)).collect())
        .collect()
}

#[test]
fn removing_from_a_column_closes_the_rows() {
    let mut party = Party::new();
    let mut battle = Battle::new(grid(2, 3), &mut party);
    battle.remove_enemy(0, 1);
    assert_eq!(
        places(&battle),
        vec![
            vec![(5, (0, 0)), (7, (0, 1))],
            vec![(8, (1, 0)), (9, (1, 1)), (10, (1, 2))],
        ]
    );
}

#[test]
fn removing_the_first_row_moves_the_rest_up() {
    let mut party = Party::new();
    let mut battle = Battle::new(grid(1, 3), &mut party);
    battle.remove_enemy(0, 0);
    assert_eq!(places(&battle), vec![vec![(6, (0, 0)), (7, (0, 1))]]);
    battle.remove_enemy(0, 1);
    assert_eq!(places(&battle), vec![vec![(6, (0, 0))]]);
}

#[test]
fn removing_the_last_of_a_column_closes_the_columns() {
    let mut party = Party::new();
    let mut enemies = grid(3, 2);
    enemies[0].pop();
    let mut battle = Battle::new(enemies, &mut party);
    battle.remove_enemy(0, 0);
    assert_eq!(
        places(&battle),
        vec![vec![(7, (0, 0)), (8, (0, 1))], vec![(9, (1, 0)), (10, (1, 1))]]
    );
    // a column in the middle: only the columns behind it move
    let mut enemies = grid(3, 1);
    enemies[2].push(test_square(20, (2, 1), (2, 1)));
    let mut battle = Battle::new(enemies, &mut party);
    battle.remove_enemy(1, 0);
    assert_eq!(places(&battle), vec![vec![(5, (0, 0))], vec![(7, (1, 0)), (20, (1, 1))]]);
}

#[test]
fn removing_the_very_last_enemy_empties_the_formation() {
    let mut party = Party::new();
    let mut battle = Battle::new(grid(1, 1), &mut party);
    battle.remove_enemy(0, 0);
    assert!(battle.enemies.is_empty());
}

#[test]
fn removing_what_is_not_there_changes_nothing() {
    let mut party = Party::new();
    let mut battle = Battle::new(grid(2, 2), &mut party);
    let before = places(&battle);
    battle.remove_enemy(2, 0);
    battle.remove_enemy(0, 2);
    battle.remove_enemy(usize::MAX, usize::MAX);
    assert_eq!(places(&battle), before);
}

#[test]
fn the_sentinel_column_is_left_alone_by_reindexing() {
    let mut party = Party::new();
    let mut enemies = grid(2, 2);
    enemies[1][1].selection_pos = (0, 1);
    let mut battle = Battle::new(enemies, &mut party);
    battle.remove_enemy(0, 0);
    assert_eq!(places(&battle), vec![vec![(6, (0, 0))], vec![(7, (1, 0)), (8, (0, 1))]]);
    battle.remove_enemy(0, 0);
    assert_eq!(places(&battle), vec![vec![(7, (0, 0)), (8, (0, 1))]]);
}

#[test]
fn the_sweep_takes_out_all_the_dead_and_only_them() {
    let mut party = Party::new();
    let mut enemies = grid(3, 3);
    // ids: column 0: 5 6 7, column 1: 8 9 10, column 2: 11 12 13
    enemies[0][0].dead = true;
    enemies[0][1].dead = true;
    enemies[1][0].dead = true;
    enemies[1][1].dead = true;
    enemies[1][2].dead = true;
    enemies[2][2].dead = true;
    let mut battle = Battle::new(enemies, &mut party);
    battle.experience_gained = 100;
    battle.sweep();
    assert_eq!(places(&battle), vec![vec![(7, (0, 0))], vec![(11, (1, 0)), (12, (1, 1))]]);
    // six circles at seven experience each
    assert_eq!(battle.experience_gained, 142);
    battle.sweep();
    assert_eq!(battle.experience_gained, 142);
}

#[test]
fn the_sweep_of_a_lone_dead_enemy_wins_the_battle() {
    let mut party = Party::new();
    let mut enemies = vec![vec![test_triangle(5, (0, 0), (0, 0))]];
    enemies[0][0].dead = true;
    let mut battle = Battle::new(enemies, &mut party);
    battle.experience_gained = u32::MAX - 3;
    battle.sweep();
    assert!(battle.enemies.is_empty());
    // the count stops at the most that can be counted
    assert_eq!(battle.experience_gained, u32::MAX);
    battle.detect_victory(41);
    assert_eq!(battle.battle_over, (true, 41));
    battle.detect_victory(42);
    assert_eq!(battle.battle_over, (true, 41));
}

#[test]
fn an_empty_column_is_no_victory() {
    let mut party = Party::new();
    let mut battle = Battle::new(vec![Vec::new()], &mut party);
    battle.sweep();
    battle.detect_victory(1);
    assert_eq!(battle.enemies.len(), 1);
    assert_eq!(battle.battle_over, (false, 0));
}

#[test]
fn a_battle_starts_with_the_turn_free() {
    let mut party = Party::new();
    party.first.sprite = jrpg_battle::party::character::Sprite::Victory;
    party.second.sprite = jrpg_battle::party::character::Sprite::Victory;
    party.second.state.hp = 0;
    let enemies = vec![
        vec![test_triangle(5, (0, 0), (0, 0)), test_triangle(6, (0, 2), (0, 1))],
        vec![test_circle(7, (1, 0), (1, 0))],
    ];
    let battle = Battle::new(enemies, &mut party);
    assert_eq!(battle.current_turn, 0);
    assert!(battle.active_turns.is_empty());
    assert!(battle.notification.is_none());
    assert_eq!(battle.experience_gained, 0);
    assert_eq!(battle.battle_over, (false, 0));
    // the longest column is four cells long: 184 - 4 * 16
    assert_eq!(battle.enemies_start_draw_height, 120);
    assert_eq!(party.first.sprite, jrpg_battle::party::character::Sprite::StandRight);
    assert_eq!(party.second.sprite, jrpg_battle::party::character::Sprite::Victory);
    let empty = Battle::new(vec![Vec::new()], &mut party);
    assert_eq!(empty.enemies_start_draw_height, 184);
    let mut giant = test_circle(5, (0, 0), (0, 0));
    giant.size = u32::MAX;
    let tall = Battle::new(vec![vec![giant]], &mut party);
    assert_eq!(tall.enemies_start_draw_height, i32::MIN);
}

#[test]
fn formations_are_tested_for_well_formedness() {
    let mut party = Party::new();
    let mut battle = Battle::new(grid(2, 2), &mut party);
    assert!(battle.is_well_formed());
    assert!(party.is_well_formed());
    assert!(jrpg_battle::battle::roster_is_well_formed(&Vec::new()));
    battle.enemies[1][1].state.resistance = 0;
    assert!(!battle.is_well_formed());
    assert!(!jrpg_battle::battle::roster_is_well_formed(&battle.enemies));
    party.third.state.mp = 1;
    assert!(!party.is_well_formed());
}

#[test]
fn a_table_of_rolls_fits_the_formation() {
    let mut party = Party::new();
    let mut enemies = grid(2, 3);
    enemies[1].pop();
    let mut battle = Battle::new(enemies, &mut party);
    battle.current_turn = 6;
    let table = battle.draw_enemy_table();
    let shape: Vec<usize> = table.iter().map(|c| c.len()).collect();
    assert_eq!(shape, vec![3, 2]);
    for (c, column) in table.iter().enumerate() {
        for (r, rolls) in column.iter().enumerate() {
            assert!(rolls.act < jrpg_battle::dice::ROLL_LIMIT);
            assert!(rolls.target < jrpg_battle::dice::ROLL_LIMIT);
            assert!(rolls.action.steal < jrpg_battle::dice::ROLL_LIMIT);
            assert!(rolls.action.status.dead < jrpg_battle::dice::ROLL_LIMIT);
            if (c, r) != (0, 1) {
                // nobody but the one whose turn it is needs a roll
                assert_eq!((rolls.act, rolls.target), (0, 0));
            }
            assert_eq!(rolls.action.steal, 0);
        }
    }
}
