use jrpg_battle::battle::print_damage::{NumberColor, PrintDamage};
use jrpg_battle::battle::state::{BattleState, ATB_SUBTICKS};
use jrpg_battle::battle::turn::grant_turn;

fn fighter(id: u8, agility: u8) -> BattleState {
    BattleState::new(id, 1, 30, 5, 3, 2, 2, 2, agility, 0, 0, 0, false, None, None, None)
}

/// Runs ticks with the turn free until the combatant joins the queue and
/// gives the number of that tick, counted from one.
fn ticks_until_ready(mut state: BattleState, limit: usize) -> Option<usize> {
    let mut token = 0u8;
    let mut queue = Vec::new();
    for tick in 1..=limit {
        state.update(&mut token, &mut queue);
        if !queue.is_empty() {
            assert_eq!(queue, vec![state.id]);
            assert_eq!(state.atb, 0);
            assert_eq!(state.atb_subtick, 0);
            return Some(tick);
        }
    }
    None
}

#[test]
fn overflow_tick_follows_the_formula_for_every_agility() {
    for agility in 1..=255u8 {
        for atb in [0u8, 1, 100, 254, 255] {
            for subtick in 0..ATB_SUBTICKS {
                let mut state = fighter(9, agility);
                state.atb = atb;
                state.atb_subtick = subtick;
                let expected = (5 - subtick as usize)
                    + 5 * ((255 - atb as usize) / agility as usize);
                assert_eq!(ticks_until_ready(state, 2000), Some(expected));
                // the same start gives the same tick again
                assert_eq!(ticks_until_ready(state, 2000), Some(expected));
            }
        }
    }
}

#[test]
fn overflow_tick_examples() {
    // agility 255 runs over on the second step unless the bar is empty
    assert_eq!(ticks_until_ready(fighter(1, 255), 100), Some(10));
    // agility 1 needs 255 steps to fill the bar and one more to run over
    assert_eq!(ticks_until_ready(fighter(1, 1), 2000), Some(1280));
    let mut near = fighter(1, 5);
    near.atb = 251;
    near.atb_subtick = 4;
    assert_eq!(ticks_until_ready(near, 100), Some(1));
}

#[test]
fn the_bar_steps_every_fifth_tick() {
    let mut state = fighter(1, 7);
    let mut token = 0u8;
    let mut queue = Vec::new();
    let mut seen = Vec::new();
    for _ in 0..11 {
        state.update(&mut token, &mut queue);
        seen.push((state.atb, state.atb_subtick));
    }
    assert_eq!(
        seen,
        vec![
            (0, 1),
            (0, 2),
            (0, 3),
            (0, 4),
            (7, 0),
            (7, 1),
            (7, 2),
            (7, 3),
            (7, 4),
            (14, 0),
            (14, 1)
        ]
    );
    assert!(queue.is_empty());
    assert_eq!(token, 0);
}

#[test]
fn no_agility_never_gets_ready() {
    assert_eq!(ticks_until_ready(fighter(1, 0), 5000), None);
}

#[test]
fn the_bar_stands_still_while_the_turn_is_held() {
    let mut state = fighter(1, 50);
    state.atb = 120;
    state.atb_subtick = 3;
    let mut token = 4u8;
    let mut queue = vec![8u8];
    for _ in 0..20 {
        state.update(&mut token, &mut queue);
    }
    assert_eq!((state.atb, state.atb_subtick), (120, 3));
    assert_eq!(queue, vec![8]);
    assert_eq!(token, 4);
}

#[test]
fn the_dead_and_the_sleeping_members_have_their_bar_emptied() {
    let mut dead = fighter(1, 50);
    dead.hp = 0;
    dead.atb = 200;
    dead.atb_subtick = 4;
    let mut asleep = fighter(2, 50);
    asleep.character_info = Some(jrpg_battle::party::character_info::CharacterInfo::new());
    asleep.sleeping = 1;
    asleep.atb = 200;
    asleep.atb_subtick = 4;
    let mut immune = fighter(3, 50);
    immune.character_info = Some(jrpg_battle::party::character_info::CharacterInfo::new());
    immune.sleeping = -1;
    immune.atb = 200;
    immune.atb_subtick = 3;
    // sleep keeps party members from their turn, not enemies
    let mut enemy = fighter(4, 50);
    enemy.sleeping = 1;
    enemy.atb = 200;
    enemy.atb_subtick = 3;
    let mut token = 0u8;
    let mut queue = Vec::new();
    dead.update(&mut token, &mut queue);
    asleep.update(&mut token, &mut queue);
    immune.update(&mut token, &mut queue);
    enemy.update(&mut token, &mut queue);
    assert_eq!((dead.atb, dead.atb_subtick), (0, 0));
    assert_eq!((asleep.atb, asleep.atb_subtick), (0, 0));
    assert_eq!((immune.atb, immune.atb_subtick), (200, 4));
    assert_eq!((enemy.atb, enemy.atb_subtick), (200, 4));
    assert!(queue.is_empty());
    // a dead combatant's bar is emptied even while the turn is held
    dead.atb = 9;
    token = 3;
    dead.update(&mut token, &mut queue);
    assert_eq!(dead.atb, 0);
}

#[test]
fn the_last_to_get_ready_is_served_first() {
    let mut slow = fighter(1, 200);
    let mut fast = fighter(2, 200);
    slow.atb = 100;
    fast.atb = 100;
    slow.atb_subtick = 4;
    fast.atb_subtick = 4;
    let mut token = 0u8;
    let mut queue = Vec::new();
    slow.update(&mut token, &mut queue);
    fast.update(&mut token, &mut queue);
    assert_eq!(queue, vec![1, 2]);
    grant_turn(&mut token, &mut queue);
    assert_eq!(token, 2);
    assert_eq!(queue, vec![1]);
    // while the turn is held nobody else is served
    grant_turn(&mut token, &mut queue);
    assert_eq!(token, 2);
    assert_eq!(queue, vec![1]);
    token = 0;
    grant_turn(&mut token, &mut queue);
    assert_eq!(token, 1);
    assert!(queue.is_empty());
    token = 0;
    grant_turn(&mut token, &mut queue);
    assert_eq!(token, 0);
}

#[test]
fn the_floating_number_counts_down_and_goes() {
    let mut state = fighter(1, 1);
    state.print_damage = Some(PrintDamage::new(12, NumberColor::White));
    let mut token = 1u8;
    let mut queue = Vec::new();
    state.update(&mut token, &mut queue);
    assert_eq!(
        state.print_damage,
        Some(PrintDamage { value: 12, color: NumberColor::White, show_time: 119 })
    );
    for _ in 0..119 {
        state.update(&mut token, &mut queue);
    }
    assert_eq!(state.print_damage.unwrap().show_time, 0);
    state.update(&mut token, &mut queue);
    assert!(state.print_damage.is_none());
    let mut number = PrintDamage::new(1, NumberColor::Blue);
    number.show_time = 0;
    number.update();
    assert_eq!(number.show_time, 0);
}
