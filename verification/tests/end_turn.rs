use jrpg_battle::battle::print_damage::{NumberColor, PrintDamage};
use jrpg_battle::battle::state::{BattleState, PERMANENT_AFFLICTION, PERMANENT_IMMUNITY};
use jrpg_battle::menu::notification::{tick_slot, Notification, NOTIFICATION_TICKS};
use jrpg_battle::party::character_info::{CharacterInfo, StatusEffect};

fn member(hp: u16) -> BattleState {
    BattleState::new(
        1, 1, hp, 5, 3, 2, 2, 2, 4, 0, 0, 0, false, None, None, Some(CharacterInfo::new()),
    )
}

fn text(slot: &Option<Notification>) -> Option<String> {
    slot.as_ref().map(|n| n.text.clone())
}

#[test]
fn poison_takes_a_twentieth() {
    let mut state = member(100);
    state.poisoned = 3;
    state.atb = 44;
    let mut banner = None;
    state.end_turn(&mut banner, &"Ann".to_owned());
    assert_eq!(state.hp, 95);
    assert_eq!(state.poisoned, 2);
    assert_eq!(state.atb, 0);
    assert_eq!(text(&banner), Some("Ann took 5 poison damage".to_owned()));
    assert_eq!(
        state.print_damage,
        Some(PrintDamage { value: 5, color: NumberColor::White, show_time: 120 })
    );
}

#[test]
fn poison_takes_at_least_one() {
    let mut state = member(100);
    state.hp = 10;
    state.poisoned = 1;
    let mut banner = None;
    state.end_turn(&mut banner, &"Ann".to_owned());
    assert_eq!(state.hp, 9);
    assert_eq!(text(&banner), Some("Ann took 1 poison damage".to_owned()));
    let mut last = member(100);
    last.hp = 1;
    last.poisoned = 2;
    last.end_turn(&mut banner, &"Bob".to_owned());
    assert_eq!(last.hp, 0);
    // at no hit points poison still bites, and stops at zero
    last.end_turn(&mut banner, &"Bob".to_owned());
    assert_eq!(last.hp, 0);
    assert_eq!(last.poisoned, 0);
}

#[test]
fn poison_damage_for_large_hit_points() {
    let mut state = member(u16::MAX);
    state.poisoned = 5;
    let mut banner = None;
    state.end_turn(&mut banner, &"Ann".to_owned());
    assert_eq!(state.hp, 65535 - 3276);
    assert_eq!(text(&banner), Some("Ann took 3276 poison damage".to_owned()));
}

#[test]
fn a_status_that_ends_loses_its_badge() {
    let mut state = member(100);
    let mut info = CharacterInfo::new();
    info.set_effect(StatusEffect::Poison);
    info.set_effect(StatusEffect::Sleep);
    state.character_info = Some(info);
    state.poisoned = 1;
    state.sleeping = 2;
    let mut banner = None;
    state.end_turn(&mut banner, &"Ann".to_owned());
    assert_eq!((state.poisoned, state.sleeping), (0, 1));
    let info = state.character_info.unwrap();
    assert_eq!((info.first, info.second), (Some(StatusEffect::Sleep), None));
    state.end_turn(&mut banner, &"Ann".to_owned());
    assert_eq!((state.poisoned, state.sleeping), (0, 0));
    let info = state.character_info.unwrap();
    assert_eq!((info.first, info.second), (None, None));
    assert_eq!(state.hp, 95);
}

#[test]
fn immunity_counts_up_to_zero() {
    let mut state = member(100);
    state.poisoned = -2;
    state.sleeping = -1;
    let mut banner = Some(Notification::new("kept".to_owned()));
    state.end_turn(&mut banner, &"Ann".to_owned());
    assert_eq!((state.poisoned, state.sleeping), (-1, 0));
    assert_eq!(state.hp, 100);
    assert_eq!(text(&banner), Some("kept".to_owned()));
    assert!(state.print_damage.is_none());
    state.end_turn(&mut banner, &"Ann".to_owned());
    assert_eq!((state.poisoned, state.sleeping), (0, 0));
    state.end_turn(&mut banner, &"Ann".to_owned());
    assert_eq!((state.poisoned, state.sleeping), (0, 0));
}

#[test]
fn permanent_counters_do_not_move() {
    let mut state = member(100);
    state.poisoned = PERMANENT_AFFLICTION;
    state.sleeping = PERMANENT_IMMUNITY;
    let mut banner = None;
    for _ in 0..5 {
        state.end_turn(&mut banner, &"Ann".to_owned());
    }
    assert_eq!(state.poisoned, 126);
    assert_eq!(state.sleeping, -125);
    // permanent poison takes no toll at the end of a turn
    assert_eq!(state.hp, 100);
    assert!(banner.is_none());
    state.poisoned = PERMANENT_IMMUNITY;
    state.sleeping = PERMANENT_AFFLICTION;
    state.end_turn(&mut banner, &"Ann".to_owned());
    assert_eq!((state.poisoned, state.sleeping), (-125, 126));
}

#[test]
fn sleep_takes_no_hit_points() {
    let mut state = member(60);
    state.sleeping = 3;
    let mut banner = None;
    state.end_turn(&mut banner, &"Ann".to_owned());
    assert_eq!(state.sleeping, 2);
    assert_eq!(state.hp, 60);
    assert!(banner.is_none());
}

#[test]
fn badges_are_pinned_once_and_close_ranks() {
    let mut info = CharacterInfo::new();
    assert!(!info.has_effect(StatusEffect::Poison));
    info.remove_effect(StatusEffect::Poison);
    assert_eq!((info.first, info.second), (None, None));
    info.set_effect(StatusEffect::Sleep);
    info.set_effect(StatusEffect::Sleep);
    assert_eq!((info.first, info.second), (Some(StatusEffect::Sleep), None));
    info.set_effect(StatusEffect::Poison);
    assert_eq!(
        (info.first, info.second),
        (Some(StatusEffect::Sleep), Some(StatusEffect::Poison))
    );
    info.remove_effect(StatusEffect::Sleep);
    assert_eq!((info.first, info.second), (Some(StatusEffect::Poison), None));
    info.remove_effect(StatusEffect::Sleep);
    assert_eq!((info.first, info.second), (Some(StatusEffect::Poison), None));
}

#[test]
fn a_banner_stays_for_its_ticks() {
    let mut slot = Some(Notification::new("hello".to_owned()));
    assert_eq!(slot.as_ref().unwrap().show_time, NOTIFICATION_TICKS);
    for left in (0..90u16).rev() {
        tick_slot(&mut slot);
        assert_eq!(slot.as_ref().unwrap().show_time, left);
        assert_eq!(slot.as_ref().unwrap().text, "hello");
    }
    tick_slot(&mut slot);
    assert!(slot.is_none());
    tick_slot(&mut slot);
    assert!(slot.is_none());
}
