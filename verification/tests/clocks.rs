use jrpg_battle::battle::action::{ActionParameters, DamageType};
use jrpg_battle::battle::animation::{fade, flash, shift, step_frame, ticks_since, OPAQUE};
use jrpg_battle::battle::enemy::{get_random_target, Animation as EnemyAnimation, EnemyRolls};
use jrpg_battle::battle::state::{ActionRolls, StatusRolls};
use jrpg_battle::data::characters::{darrel_deen, nurse_seraphine};
use jrpg_battle::data::enemies::{test_triangle, ACT_BELOW};
use jrpg_battle::dice::{Chance, ROLL_LIMIT};
use jrpg_battle::menu::notification::Notification;
use jrpg_battle::party::character::{Animation, CharacterEvent, Sprite};
use jrpg_battle::party::Party;

fn text(slot: &Option<Notification>) -> Option<String> {
    slot.as_ref().map(|n| n.text.clone())
}

fn no_action_rolls() -> ActionRolls {
    ActionRolls { status: StatusRolls { dead: 0, poison: 0, sleep: 0 }, steal: 0 }
}

fn rolls(act: u32, target: u32) -> EnemyRolls {
    EnemyRolls { act, target, action: no_action_rolls() }
}

#[test]
fn clock_helpers() {
    assert_eq!(ticks_since(10, 4), 6);
    assert_eq!(ticks_since(4, 10), 0);
    assert_eq!(shift(5, -3), 2);
    assert_eq!(shift(i32::MAX - 1, 3), i32::MAX);
    assert_eq!(shift(i32::MIN + 1, -3), i32::MIN);
    assert_eq!(fade(OPAQUE), 19);
    assert_eq!(fade(0), 0);
    assert_eq!(flash(7, 10), 7);
    assert_eq!(flash(7, 15), 0);
    assert_eq!(flash(7, 20), OPAQUE);
    assert_eq!(flash(7, 25), 0);
    assert_eq!(flash(7, 30), OPAQUE);
    assert_eq!(flash(7, 35), 7);
    assert_eq!(flash(7, 17), 7);
    assert_eq!(step_frame(9, 2), 1);
    assert_eq!(step_frame(9, 5), 0);
    assert_eq!(step_frame(9, 8), 2);
    assert_eq!(step_frame(9, 11), 0);
    assert_eq!(step_frame(9, 12), 9);
    assert_eq!(step_frame(9, 14), 1);
}

#[test]
fn a_member_steps_forward_when_the_turn_is_its() {
    let mut member = darrel_deen(1);
    let mut queue = Vec::new();
    let mut token = 1u8;
    let mut banner = None;
    let event = member.update(100, &mut queue, &mut token, &mut banner);
    assert_eq!(event, CharacterEvent::Nothing);
    assert!(member.state.turn_active);
    assert_eq!(member.sprite, Sprite::WalkRight);
    assert_eq!(member.animation, (Animation::StartTurn, 11, 100));
    assert_eq!(member.x_offset, 3);
    for tick in 101..111 {
        assert_eq!(member.update(tick, &mut queue, &mut token, &mut banner), CharacterEvent::Nothing);
    }
    assert_eq!(member.animation.1, 1);
    assert_eq!(member.x_offset, 33);
    let event = member.update(111, &mut queue, &mut token, &mut banner);
    assert_eq!(event, CharacterEvent::OpenBattleMenu);
    assert_eq!(member.animation, (Animation::StartTurn, 0, 100));
    assert_eq!(member.x_offset, 36);
    assert_eq!(member.sprite, Sprite::StandRight);
    assert_eq!(member.frame, 0);
    assert_eq!(token, 1);
    // the turn is held: nothing more happens until a command comes
    let event = member.update(112, &mut queue, &mut token, &mut banner);
    assert_eq!(event, CharacterEvent::Nothing);
    assert_eq!(member.animation, (Animation::StartTurn, 0, 100));
}

#[test]
fn an_attack_ends_by_stepping_back_and_giving_the_turn_up() {
    let mut member = darrel_deen(1);
    member.state.turn_active = true;
    member.state.poisoned = 2;
    member.state.atb = 9;
    member.x_offset = 36;
    member.animation = (Animation::Attack, 1, 50);
    member.sprite = Sprite::Attack;
    let mut queue = Vec::new();
    let mut token = 1u8;
    let mut banner = None;
    member.update(110, &mut queue, &mut token, &mut banner);
    assert_eq!(member.animation, (Animation::EndTurn, 12, 110));
    assert_eq!(member.sprite, Sprite::WalkLeft);
    assert_eq!(token, 1);
    for tick in 111..122 {
        member.update(tick, &mut queue, &mut token, &mut banner);
        assert_eq!(token, 1);
        assert!(member.state.turn_active);
    }
    member.update(122, &mut queue, &mut token, &mut banner);
    assert_eq!(token, 0);
    assert!(!member.state.turn_active);
    assert_eq!(member.x_offset, 0);
    assert_eq!(member.sprite, Sprite::StandRight);
    assert_eq!(member.state.poisoned, 1);
    // 9935 / 20 = 496
    assert_eq!(member.state.hp, 9935 - 496);
    assert_eq!(member.state.atb, 0);
    assert_eq!(text(&banner), Some("Darrel took 496 poison damage".to_owned()));
}

#[test]
fn a_member_whom_poison_kills_falls() {
    let mut member = nurse_seraphine(2);
    member.state.turn_active = true;
    member.state.hp = 1;
    member.state.poisoned = 1;
    member.animation = (Animation::EndTurn, 1, 0);
    let mut queue = Vec::new();
    let mut token = 2u8;
    let mut banner = None;
    member.update(30, &mut queue, &mut token, &mut banner);
    assert_eq!(member.state.hp, 0);
    assert_eq!(member.animation, (Animation::Dead, 20, 30));
    assert_eq!(text(&banner), Some("Seraphine dead".to_owned()));
    assert_eq!(token, 0);
    for tick in 31..51 {
        member.update(tick, &mut queue, &mut token, &mut banner);
    }
    assert_eq!(member.sprite, Sprite::Dead);
    assert_eq!(member.animation, (Animation::Dead, 0, 30));
}

#[test]
fn a_hurt_member_flashes_and_falls_if_spent() {
    let mut member = nurse_seraphine(2);
    member.state.hp = 0;
    member.animation = (Animation::Hurt, 60, 0);
    let mut queue = Vec::new();
    let mut token = 7u8;
    let mut banner = None;
    let mut seen = Vec::new();
    for tick in 1..=59 {
        member.update(tick, &mut queue, &mut token, &mut banner);
        seen.push(member.opacity);
    }
    assert_eq!(seen[13], OPAQUE);
    assert_eq!(seen[14], 0);
    assert_eq!(seen[18], 0);
    assert_eq!(seen[19], OPAQUE);
    assert_eq!(seen[24], 0);
    assert_eq!(seen[29], OPAQUE);
    assert_eq!(seen[58], OPAQUE);
    assert!(banner.is_none());
    member.update(60, &mut queue, &mut token, &mut banner);
    assert_eq!(member.animation, (Animation::Dead, 20, 60));
    assert_eq!(member.opacity, OPAQUE);
    assert_eq!(text(&banner), Some("Seraphine dead".to_owned()));
    // one that holds the turn steps back instead
    let mut acting = nurse_seraphine(2);
    acting.state.turn_active = true;
    acting.state.hp = 0;
    acting.animation = (Animation::Hurt, 1, 0);
    acting.update(5, &mut queue, &mut token, &mut banner);
    assert_eq!(acting.animation, (Animation::EndTurn, 12, 5));
    assert_eq!(acting.sprite, Sprite::WalkLeft);
}

#[test]
fn a_fleeing_member_reports_when_it_is_away() {
    let mut member = darrel_deen(1);
    member.animation = (Animation::Flee, 2, 0);
    let mut queue = Vec::new();
    let mut token = 0u8;
    let mut banner = None;
    assert_eq!(member.update(1, &mut queue, &mut token, &mut banner), CharacterEvent::Nothing);
    assert_eq!(member.update(2, &mut queue, &mut token, &mut banner), CharacterEvent::Fled);
}

#[test]
fn an_empty_slot_does_nothing() {
    let mut slot = jrpg_battle::data::characters::none_character(3);
    let before = format!("{:?}", slot.state);
    let mut queue = Vec::new();
    let mut token = 3u8;
    let mut banner = None;
    for tick in 0..30 {
        assert_eq!(slot.update(tick, &mut queue, &mut token, &mut banner), CharacterEvent::Nothing);
    }
    assert_eq!(format!("{:?}", slot.state), before);
    assert_eq!(slot.animation, (Animation::EndTurn, 0, 0));
    assert_eq!(token, 3);
    assert!(!slot.present());
    assert!(!slot.alive());
}

#[test]
fn a_member_joins_the_queue_when_its_bar_runs_over() {
    let mut member = darrel_deen(1);
    member.state.atb = 253;
    member.state.atb_subtick = 4;
    let mut queue = vec![9u8];
    let mut token = 0u8;
    let mut banner = None;
    member.update(1, &mut queue, &mut token, &mut banner);
    assert_eq!(queue, vec![9, 1]);
    assert_eq!(member.state.atb, 0);
}

#[test]
fn an_enemy_that_acts_sets_out_for_a_living_member() {
    let mut party = Party::new();
    party.first.state.hp = 0;
    let mut enemy = test_triangle(5, (0, 0), (0, 0));
    let mut queue = Vec::new();
    let mut token = 5u8;
    let mut banner = None;
    enemy.update_with(&mut party, &mut queue, &mut token, &mut banner, 200, rolls(ACT_BELOW - 1, 0));
    assert!(enemy.turn_active);
    assert_eq!(text(&banner), Some("Triangle attacks".to_owned()));
    match enemy.animation {
        (EnemyAnimation::StartTurn(slot, action), left, start) => {
            assert_eq!(slot, 1);
            assert_eq!(action, ActionParameters::plain(DamageType::Physical, 6));
            assert_eq!((left, start), (59, 200));
        }
        other => panic!("{:?}", other),
    }
    assert_eq!(enemy.x_offset, -2);
    assert_eq!(token, 5);
}

#[test]
fn an_enemy_that_passes_says_so() {
    let mut party = Party::new();
    let mut enemy = test_triangle(5, (0, 0), (0, 0));
    let mut queue = Vec::new();
    let mut token = 5u8;
    let mut banner = None;
    enemy.update_with(&mut party, &mut queue, &mut token, &mut banner, 200, rolls(ACT_BELOW, 0));
    assert_eq!(text(&banner), Some("Triangle does nothing".to_owned()));
    assert_eq!(enemy.animation.1, 29);
    assert!(enemy.animation.0 == EnemyAnimation::EndTurn);
    for tick in 201..229 {
        enemy.update_with(&mut party, &mut queue, &mut token, &mut banner, tick, rolls(0, 0));
        assert_eq!(token, 5);
    }
    enemy.state.poisoned = 1;
    enemy.update_with(&mut party, &mut queue, &mut token, &mut banner, 229, rolls(0, 0));
    assert_eq!(token, 0);
    assert!(!enemy.turn_active);
    assert_eq!(enemy.state.hp, 15);
    assert_eq!(text(&banner), Some("Triangle took 1 poison damage".to_owned()));
    // with nobody left to go for, an enemy passes whatever its roll
    let mut alone = Party::new();
    alone.first.state.hp = 0;
    alone.second.state.hp = 0;
    let mut other = test_triangle(6, (0, 0), (0, 0));
    token = 6;
    other.update_with(&mut alone, &mut queue, &mut token, &mut banner, 0, rolls(0, 0));
    assert_eq!(text(&banner), Some("Triangle does nothing".to_owned()));
}

#[test]
fn an_enemys_action_reaches_its_target_after_sixty_ticks() {
    let mut party = Party::new();
    let mut enemy = test_triangle(5, (0, 0), (0, 0));
    let mut queue = Vec::new();
    let mut token = 5u8;
    let mut banner = None;
    // the second half of the rolls falls on the second of two members
    enemy.update_with(
        &mut party,
        &mut queue,
        &mut token,
        &mut banner,
        1000,
        rolls(0, ROLL_LIMIT / 2 + 1),
    );
    let mut offsets = vec![enemy.x_offset];
    for tick in 1001..1059 {
        enemy.update_with(&mut party, &mut queue, &mut token, &mut banner, tick, rolls(0, 0));
        offsets.push(enemy.x_offset);
    }
    assert_eq!(party.second.state.hp, 20);
    // towards the party for ticks 0..=10 and 31..=49, back otherwise
    assert_eq!(offsets[10], -22);
    assert_eq!(offsets[30], 18);
    assert_eq!(offsets[49], -20);
    assert_eq!(offsets[58], -2);
    enemy.update_with(&mut party, &mut queue, &mut token, &mut banner, 1059, rolls(0, 0));
    assert_eq!(enemy.x_offset, 0);
    // 6 * 3 / 3 = 6
    assert_eq!(party.second.state.hp, 14);
    assert_eq!(party.first.state.hp, 9935);
    assert_eq!(party.second.animation, (Animation::Hurt, 60, 1059));
    assert!(enemy.animation.0 == EnemyAnimation::EndTurn);
    assert_eq!((enemy.animation.1, enemy.animation.2), (30, 1059));
    assert_eq!(party.second.state.print_damage.unwrap().value, 6);
    assert_eq!(token, 5);
}

#[test]
fn targets_are_picked_by_equal_lots() {
    let mut party = Party::new();
    party.third = darrel_deen(3);
    // three alive: slots 0, 1, 2
    let third = ROLL_LIMIT / 3;
    assert_eq!(get_random_target(&party, 0), Some(0));
    assert_eq!(get_random_target(&party, third), Some(0));
    assert_eq!(get_random_target(&party, third + 1), Some(1));
    assert_eq!(get_random_target(&party, 2 * third + 1), Some(2));
    assert_eq!(get_random_target(&party, ROLL_LIMIT - 1), Some(2));
    party.second.state.hp = 0;
    assert_eq!(get_random_target(&party, ROLL_LIMIT / 2), Some(0));
    assert_eq!(get_random_target(&party, ROLL_LIMIT / 2 + 1), Some(2));
    party.fourth = nurse_seraphine(4);
    party.second.state.hp = 1;
    assert_eq!(get_random_target(&party, ROLL_LIMIT - 1), Some(3));
    assert_eq!(get_random_target(&party, ROLL_LIMIT / 4), Some(0));
    assert_eq!(get_random_target(&party, ROLL_LIMIT / 4 + 1), Some(1));
    // a word that is no roll falls on the last lot
    assert_eq!(get_random_target(&party, u32::MAX), Some(3));
    for member in [&mut party.first, &mut party.second, &mut party.third, &mut party.fourth] {
        member.state.hp = 0;
    }
    assert_eq!(get_random_target(&party, 0), None);
}

#[test]
fn a_hurt_enemy_dies_when_spent() {
    let mut party = Party::new();
    let mut enemy = test_triangle(5, (0, 0), (0, 0));
    let mut inventory = Vec::new();
    let mut banner = None;
    let blow = ActionParameters::plain(DamageType::Pure, 100);
    enemy.receive_battle_action_with(&mut inventory, &mut banner, &blow, 10, no_action_rolls());
    assert_eq!(enemy.state.hp, 0);
    assert!(enemy.animation.0 == EnemyAnimation::Hurt);
    assert_eq!((enemy.animation.1, enemy.animation.2), (60, 10));
    let mut queue = Vec::new();
    let mut token = 1u8;
    for tick in 11..=70 {
        enemy.update_with(&mut party, &mut queue, &mut token, &mut banner, tick, rolls(0, 0));
    }
    assert!(enemy.animation.0 == EnemyAnimation::Dead);
    assert_eq!((enemy.animation.1, enemy.animation.2), (20, 70));
    assert_eq!(enemy.opacity, OPAQUE);
    assert!(!enemy.dead);
    for tick in 71..=89 {
        enemy.update_with(&mut party, &mut queue, &mut token, &mut banner, tick, rolls(0, 0));
    }
    assert_eq!(enemy.opacity, 1);
    assert!(!enemy.dead);
    enemy.update_with(&mut party, &mut queue, &mut token, &mut banner, 90, rolls(0, 0));
    assert!(enemy.dead);
    assert_eq!(enemy.opacity, 0);
}

#[test]
fn healing_does_not_make_an_enemys_target_flinch() {
    let mut party = Party::new();
    party.second.state.hp = 3;
    let mut enemy = test_triangle(5, (0, 0), (0, 0));
    let mut banner = None;
    let cure = ActionParameters::plain(DamageType::Healing, 2);
    enemy.act_on_target_with(
        &mut party.inventory,
        &mut banner,
        &cure,
        &mut party.second,
        7,
        no_action_rolls(),
    );
    assert_eq!(party.second.state.hp, 13);
    assert_eq!(party.second.animation, (Animation::EndTurn, 0, 0));
    assert!(enemy.animation.0 == EnemyAnimation::EndTurn);
    // anything else does, a potion too
    let potion = ActionParameters::plain(
        DamageType::Item(jrpg_battle::party::item::InventoryItem::new(
            jrpg_battle::party::item::ItemVariant::Potion,
        )),
        0,
    );
    enemy.act_on_target_with(
        &mut party.inventory,
        &mut banner,
        &potion,
        &mut party.second,
        8,
        no_action_rolls(),
    );
    assert_eq!(party.second.state.hp, 20);
    assert_eq!(party.second.animation, (Animation::Hurt, 60, 8));
    assert_eq!(text(&banner), Some("Potion".to_owned()));
}

#[test]
fn enemy_phases_compare_by_kind() {
    let a = EnemyAnimation::StartTurn(0, ActionParameters::plain(DamageType::Physical, 1));
    let b = EnemyAnimation::StartTurn(3, ActionParameters::plain(DamageType::Pure, 9));
    assert!(a == b);
    assert!(a != EnemyAnimation::EndTurn);
    assert!(EnemyAnimation::Hurt == EnemyAnimation::Hurt);
    assert!(EnemyAnimation::Dead != EnemyAnimation::Hurt);
    assert!(Chance::certain().is_hit(0));
}

#[test]
fn rolled_actions_keep_their_targets_well_formed() {
    let mut party = Party::new();
    let mut enemy = test_triangle(5, (0, 0), (0, 0));
    let risky = ActionParameters::new(
        DamageType::Magical,
        2,
        Chance::from_percent(30),
        false,
        Chance::from_percent(50),
        false,
        Chance::from_percent(50),
        false,
    );
    for tick in 0..200 {
        let mut banner = None;
        enemy.receive_battle_action(&mut party.inventory, &mut banner, &risky, tick);
        assert!(enemy.state.is_well_formed());
        assert!(enemy.animation.0 == EnemyAnimation::Hurt);
        assert_eq!((enemy.animation.1, enemy.animation.2), (60, tick));
        assert!(enemy.state.poisoned == 0 || enemy.state.poisoned == 5);
        assert!(enemy.state.sleeping == 0 || enemy.state.sleeping == 3);
        party.second.receive_battle_action(&mut party.inventory, &mut banner, &risky, tick);
        assert!(party.second.state.is_well_formed());
        assert_eq!(party.second.animation, (Animation::Hurt, 60, tick));
        enemy.act_on_target(&mut party.inventory, &mut banner, &risky, &mut party.first, tick);
        assert!(party.first.state.is_well_formed());
        assert!(enemy.animation.0 == EnemyAnimation::EndTurn);
        assert_eq!((enemy.animation.1, enemy.animation.2), (30, tick));
        assert_eq!(party.first.animation, (Animation::Hurt, 60, tick));
        assert_eq!(party.inventory.len(), 2);
        enemy.state.hp = enemy.state.max_hp;
        party.first.state.hp = party.first.state.max_hp;
        party.second.state.hp = party.second.state.max_hp;
    }
    // magical damage goes by the resistance: 2 * 3 / 4 = 1
    let mut banner = None;
    let plain = ActionParameters::plain(DamageType::Magical, 2);
    party.first.state.poisoned = 0;
    party.first.state.sleeping = 0;
    party.first.receive_battle_action(&mut party.inventory, &mut banner, &plain, 0);
    assert_eq!(party.first.state.hp, 9934);
    assert!(banner.is_none());
}

#[test]
fn an_enemy_on_its_own_rolls_acts_or_passes() {
    let mut acted = 0;
    let mut passed = 0;
    for _ in 0..400 {
        let mut party = Party::new();
        let mut enemy = test_triangle(5, (0, 0), (0, 0));
        let mut queue = Vec::new();
        let mut token = 5u8;
        let mut banner = None;
        enemy.update(&mut party, &mut queue, &mut token, &mut banner, 0);
        assert!(enemy.turn_active);
        match enemy.animation.0 {
            EnemyAnimation::StartTurn(slot, _) => {
                assert!(slot < 2);
                assert_eq!(text(&banner), Some("Triangle attacks".to_owned()));
                acted += 1;
            }
            EnemyAnimation::EndTurn => {
                assert_eq!(text(&banner), Some("Triangle does nothing".to_owned()));
                passed += 1;
            }
            other => panic!("{:?}", other),
        }
    }
    // three turns in four, give or take
    assert!(acted > 200 && passed > 30);
    let mut sure = test_triangle(5, (0, 0), (0, 0));
    sure.act_chance = Chance::never();
    let mut party = Party::new();
    let mut queue = Vec::new();
    let mut token = 5u8;
    let mut banner = None;
    sure.update(&mut party, &mut queue, &mut token, &mut banner, 0);
    assert!(sure.animation.0 == EnemyAnimation::EndTurn);
}
