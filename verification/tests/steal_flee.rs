use jrpg_battle::battle::action::{ActionParameters, DamageType, SideEffect};
use jrpg_battle::battle::enemy::Enemy;
use jrpg_battle::battle::flee::{any_escapable, flee_action, flee_action_with, FLEE_BELOW};
use jrpg_battle::battle::state::{ActionRolls, BattleState, StatusRolls};
use jrpg_battle::battle::steal::{steal_action, steal_with, STEAL_COMMON_BELOW, STEAL_RARE_BELOW};
use jrpg_battle::battle::Battle;
use jrpg_battle::data::enemies::test_circle;
use jrpg_battle::dice::{Chance, ROLL_LIMIT};
use jrpg_battle::menu::notification::Notification;
use jrpg_battle::party::character::{Animation, Sprite, FLEE_TICKS};
use jrpg_battle::party::item::{InventoryItem, ItemVariant};
use jrpg_battle::party::{InventoryElement, Party};

fn potion() -> InventoryItem {
    InventoryItem::new(ItemVariant::Potion)
}

fn ether() -> InventoryItem {
    InventoryItem::new(ItemVariant::Ether)
}

fn stacks(potions: u8, ethers: u8) -> Vec<InventoryElement> {
    vec![InventoryElement::Item(potion(), potions), InventoryElement::Item(ether(), ethers)]
}

fn victim(common: Option<InventoryItem>, rare: Option<InventoryItem>) -> BattleState {
    BattleState::new(5, 1, 30, 5, 3, 2, 2, 2, 4, 0, 0, 0, false, common, rare, None)
}

fn text(slot: &Option<Notification>) -> Option<String> {
    slot.as_ref().map(|n| n.text.clone())
}

#[test]
fn a_low_roll_takes_the_common_loot() {
    let target = victim(Some(potion()), Some(ether()));
    for roll in [0, STEAL_COMMON_BELOW - 1] {
        let mut inventory = stacks(2, 1);
        let mut banner = None;
        steal_with(&mut inventory, &target, &mut banner, roll);
        assert_eq!(inventory, stacks(3, 1));
        assert_eq!(text(&banner), Some("Stole Potion".to_owned()));
    }
    assert_eq!(STEAL_COMMON_BELOW, ROLL_LIMIT / 2);
}

#[test]
fn the_next_tenth_takes_the_rare_loot() {
    let target = victim(Some(potion()), Some(ether()));
    for roll in [STEAL_COMMON_BELOW, STEAL_RARE_BELOW - 1] {
        let mut inventory = stacks(2, 1);
        let mut banner = None;
        steal_with(&mut inventory, &target, &mut banner, roll);
        assert_eq!(inventory, stacks(2, 2));
        assert_eq!(text(&banner), Some("Stole Ether".to_owned()));
    }
}

#[test]
fn a_high_roll_takes_nothing() {
    let target = victim(Some(potion()), Some(ether()));
    for roll in [STEAL_RARE_BELOW, ROLL_LIMIT - 1] {
        let mut inventory = stacks(2, 1);
        let mut banner = None;
        steal_with(&mut inventory, &target, &mut banner, roll);
        assert_eq!(inventory, stacks(2, 1));
        assert_eq!(text(&banner), Some("Could not steal".to_owned()));
    }
}

#[test]
fn there_is_nothing_to_steal_from_the_empty_handed() {
    let target = victim(None, None);
    let mut inventory = stacks(2, 1);
    let mut banner = None;
    steal_with(&mut inventory, &target, &mut banner, 0);
    assert_eq!(inventory, stacks(2, 1));
    assert_eq!(text(&banner), Some("Nothing to steal".to_owned()));
    for _ in 0..20 {
        let mut banner = None;
        steal_action(&mut inventory, &target, &mut banner);
        assert_eq!(inventory, stacks(2, 1));
        assert_eq!(text(&banner), Some("Nothing to steal".to_owned()));
    }
}

#[test]
fn a_missing_loot_slot_or_stack_changes_nothing() {
    let only_rare = victim(None, Some(ether()));
    let mut inventory = stacks(2, 1);
    let mut banner = Some(Notification::new("kept".to_owned()));
    steal_with(&mut inventory, &only_rare, &mut banner, 0);
    assert_eq!(inventory, stacks(2, 1));
    assert_eq!(text(&banner), Some("kept".to_owned()));
    let both = victim(Some(potion()), Some(ether()));
    let mut no_potions = vec![InventoryElement::Item(ether(), 1)];
    steal_with(&mut no_potions, &both, &mut banner, 0);
    assert_eq!(no_potions, vec![InventoryElement::Item(ether(), 1)]);
    assert_eq!(text(&banner), Some("kept".to_owned()));
}

#[test]
fn a_full_stack_takes_no_more_common_loot() {
    let target = victim(Some(potion()), Some(ether()));
    let mut inventory = stacks(99, 255);
    let mut banner = None;
    steal_with(&mut inventory, &target, &mut banner, 0);
    assert_eq!(inventory, stacks(99, 255));
    assert_eq!(text(&banner), Some("Stole Potion".to_owned()));
    let mut nearly = stacks(98, 254);
    steal_with(&mut nearly, &target, &mut banner, 0);
    assert_eq!(nearly, stacks(99, 254));
    // rare loot is taken past the cap of common loot, as far as a stack counts
    steal_with(&mut nearly, &target, &mut banner, STEAL_COMMON_BELOW);
    assert_eq!(nearly, stacks(99, 255));
    steal_with(&mut nearly, &target, &mut banner, STEAL_COMMON_BELOW);
    assert_eq!(nearly, stacks(99, 255));
    assert_eq!(text(&banner), Some("Stole Ether".to_owned()));
}

#[test]
fn stealing_leaves_the_target_its_loot() {
    let mut target = victim(Some(potion()), Some(ether()));
    let before = format!("{:?}", target);
    let mut inventory = stacks(2, 1);
    let mut banner = None;
    let action = ActionParameters::plain(DamageType::Effect(SideEffect::Steal), 0);
    target.receive_none_type_action(&mut inventory, &action, SideEffect::Steal, &mut banner);
    assert_eq!(format!("{:?}", target), before);
    assert!(banner.is_some());
    let rolls = ActionRolls { status: StatusRolls { dead: 0, poison: 0, sleep: 0 }, steal: 0 };
    let mut inventory = stacks(2, 1);
    target.resolve_with(&mut inventory, &mut banner, &"Rat".to_owned(), &action, rolls);
    assert_eq!(format!("{:?}", target), before);
    assert_eq!(inventory, stacks(3, 1));
}

fn lone_enemy(escapeable: bool) -> Vec<Vec<Enemy>> {
    let mut enemy = test_circle(5, (0, 0), (0, 0));
    enemy.escapeable = escapeable;
    vec![vec![enemy]]
}

#[test]
fn a_low_roll_gets_the_party_away() {
    let mut party = Party::new();
    party.second.state.hp = 0;
    let mut battle = Battle::new(lone_enemy(true), &mut party);
    assert!(any_escapable(&battle.enemies));
    let away = flee_action_with(&mut party, &mut battle, 17, FLEE_BELOW - 1);
    assert!(away);
    assert_eq!(text(&battle.notification), Some("Party escaped the battle".to_owned()));
    assert_eq!(party.first.animation, (Animation::Flee, FLEE_TICKS, 17));
    assert_eq!(party.first.animation.1, 80);
    assert_eq!(party.first.sprite, Sprite::WalkLeft);
    // the fallen stay where they are
    assert_eq!(party.second.animation, (Animation::EndTurn, 0, 0));
    assert_eq!(party.second.sprite, Sprite::StandRight);
}

#[test]
fn a_high_roll_keeps_the_party_in() {
    let mut party = Party::new();
    let mut battle = Battle::new(lone_enemy(true), &mut party);
    let away = flee_action_with(&mut party, &mut battle, 17, FLEE_BELOW);
    assert!(!away);
    assert_eq!(text(&battle.notification), Some("Could not manage to flee".to_owned()));
    assert_eq!(party.first.animation, (Animation::EndTurn, 0, 0));
}

#[test]
fn nobody_runs_from_enemies_that_cannot_be_run_from() {
    for _ in 0..30 {
        let mut party = Party::new();
        let mut battle = Battle::new(lone_enemy(false), &mut party);
        assert!(!any_escapable(&battle.enemies));
        assert!(!flee_action(&mut party, &mut battle, 3));
        assert_eq!(text(&battle.notification), Some("Could not manage to flee".to_owned()));
        assert_eq!(party.first.animation, (Animation::EndTurn, 0, 0));
    }
    let mut party = Party::new();
    let mut battle = Battle::new(Vec::new(), &mut party);
    assert!(!flee_action_with(&mut party, &mut battle, 3, 0));
    // an enemy that can no longer be targeted does not count
    let mut spent = lone_enemy(true);
    spent[0][0].state.hp = 0;
    spent[0].push(test_circle(6, (0, 1), (0, 1)));
    spent[0][1].escapeable = false;
    let mut battle = Battle::new(spent, &mut party);
    assert!(!any_escapable(&battle.enemies));
    assert!(!flee_action_with(&mut party, &mut battle, 3, 0));
    battle.enemies[0][1].escapeable = true;
    assert!(flee_action_with(&mut party, &mut battle, 3, 0));
}

#[test]
fn chances_by_percent() {
    assert_eq!(Chance::from_percent(50).threshold, STEAL_COMMON_BELOW);
    assert_eq!(Chance::from_percent(60).threshold, STEAL_RARE_BELOW);
    assert_eq!(Chance::from_percent(80).threshold, FLEE_BELOW);
    assert_eq!(Chance::from_percent(0), Chance::never());
    assert_eq!(Chance::from_percent(100), Chance::certain());
    assert_eq!(Chance::from_percent(200), Chance::certain());
    assert_eq!(Chance::from_percent(1).threshold, 167_773);
    assert!(Chance::from_threshold(5).is_hit(4));
    assert!(!Chance::from_threshold(5).is_hit(5));
    assert!(!Chance::never().is_hit(0));
    assert!(Chance::certain().is_hit(ROLL_LIMIT - 1));
}
