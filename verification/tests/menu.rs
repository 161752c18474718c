use jrpg_battle::battle::action::{ActionParameters, DamageType};
use jrpg_battle::data::characters::{darrel_deen, nurse_seraphine};
use jrpg_battle::data::enemies::{test_circle, test_triangle};
use jrpg_battle::data::menus::{
    battle_item_menu, battle_main, battle_target_selection, battle_won, item_menu,
    item_target_menu, main_menu, none_menu, row_change_menu, to_target_selection,
};
use jrpg_battle::menu::input_cooldowns::{take_press, InputCooldowns};
use jrpg_battle::menu::item::{BattleAction, MenuChange, MenuId, OnClickEvent, PartyTargets};
use jrpg_battle::menu::{Direction, Keys, MenuMovement, MenuMutation, MenuScreen};
use jrpg_battle::party::item::{InventoryItem, ItemVariant};
use jrpg_battle::party::{InventoryElement, Party};
use jrpg_battle::GameMode;

fn no_keys() -> Keys {
    Keys { a: false, s: false, f: false, up: false, down: false, left: false, right: false }
}

fn show(event: &OnClickEvent) -> String {
    format!("{:?}", event)
}

fn shown(menu: &MenuScreen) -> Vec<Vec<String>> {
    menu.selectable_items.iter().map(|l| l.iter().map(show).collect()).collect()
}

fn grid(lengths: &[usize], style: MenuMovement, cursor: (usize, usize)) -> MenuScreen {
    let lists = lengths.iter().map(|n| vec![OnClickEvent::Nothing; *n]).collect();
    let mut menu = MenuScreen::new(true, lists, cursor, style, OnClickEvent::Nothing);
    // let go of every key once
    menu.update(GameMode::Menu, no_keys());
    menu
}

#[test]
fn latches_start_set() {
    let c = InputCooldowns::new();
    assert!(c.a && c.s && c.d && c.f && c.up && c.down && c.left && c.right);
    let mut latch = true;
    assert!(!take_press(true, &mut latch));
    assert!(latch);
    assert!(!take_press(false, &mut latch));
    assert!(!latch);
    assert!(take_press(true, &mut latch));
    assert!(latch);
    assert!(!take_press(true, &mut latch));
}

#[test]
fn a_fresh_menu_ignores_held_keys() {
    let mut menu = MenuScreen::new(
        true,
        vec![vec![OnClickEvent::Transition(GameMode::Battle)]],
        (0, 0),
        MenuMovement::Grid,
        OnClickEvent::Transition(GameMode::Overworld),
    );
    let held = Keys { a: true, s: true, f: false, up: true, down: true, left: true, right: true };
    for _ in 0..3 {
        let report = menu.update(GameMode::Menu, held);
        assert!(report.click.is_none());
        assert!(report.back.is_none());
        assert_eq!(menu.cursor_pos, (0, 0));
    }
    menu.update(GameMode::Menu, no_keys());
    let report = menu.update(GameMode::Menu, Keys { a: true, ..no_keys() });
    assert_eq!(report.click.map(|e| show(&e)), Some("Transition(Battle)".to_owned()));
    let report = menu.update(GameMode::Menu, Keys { a: true, s: true, ..no_keys() });
    assert!(report.click.is_none());
    assert_eq!(report.back.map(|e| show(&e)), Some("Transition(Overworld)".to_owned()));
}

#[test]
fn the_menu_key_calls_the_main_menu_from_the_map() {
    let mut menu = grid(&[2], MenuMovement::Grid, (0, 0));
    let report = menu.update(GameMode::Overworld, Keys { f: true, down: true, ..no_keys() });
    assert!(report.main_menu);
    assert_eq!(menu.cursor_pos, (0, 0));
    let report = menu.update(GameMode::Menu, Keys { f: true, down: true, ..no_keys() });
    assert!(!report.main_menu);
    assert_eq!(menu.cursor_pos, (0, 1));
}

#[test]
fn a_closed_menu_hears_nothing() {
    let mut menu = none_menu();
    assert!(!menu.open);
    menu.input_cooldowns.a = false;
    let report = menu.update(GameMode::Battle, Keys { a: true, ..no_keys() });
    assert!(report.click.is_none());
    assert!(!menu.input_cooldowns.a);
    assert_eq!(shown(&menu), vec![Vec::<String>::new()]);
}

#[test]
fn grid_movement() {
    let mut menu = grid(&[3, 2, 1], MenuMovement::Grid, (0, 0));
    menu.move_cursor(Direction::Up);
    assert_eq!(menu.cursor_pos, (0, 0));
    menu.move_cursor(Direction::Down);
    menu.move_cursor(Direction::Down);
    assert_eq!(menu.cursor_pos, (0, 2));
    menu.move_cursor(Direction::Down);
    assert_eq!(menu.cursor_pos, (0, 2));
    // a neighbouring list counts as long enough if it reaches the row above
    menu.move_cursor(Direction::Right);
    assert_eq!(menu.cursor_pos, (1, 2));
    menu.move_cursor(Direction::Right);
    assert_eq!(menu.cursor_pos, (1, 2));
    menu.move_cursor(Direction::Up);
    menu.move_cursor(Direction::Right);
    assert_eq!(menu.cursor_pos, (2, 1));
    menu.move_cursor(Direction::Right);
    assert_eq!(menu.cursor_pos, (2, 1));
    menu.move_cursor(Direction::Left);
    menu.move_cursor(Direction::Left);
    assert_eq!(menu.cursor_pos, (0, 1));
    menu.move_cursor(Direction::Left);
    assert_eq!(menu.cursor_pos, (0, 1));
    // over no entry, nothing is chosen
    menu.cursor_pos = (1, 2);
    assert_eq!(show(&menu.selected_event()), "Nothing");
}

#[test]
fn row_of_columns_movement() {
    let mut menu = grid(&[3, 2], MenuMovement::RowOfColumns, (0, 2));
    menu.move_cursor(Direction::Right);
    assert_eq!(menu.cursor_pos, (1, 0));
    menu.move_cursor(Direction::Right);
    assert_eq!(menu.cursor_pos, (1, 0));
    menu.move_cursor(Direction::Down);
    assert_eq!(menu.cursor_pos, (1, 1));
    menu.move_cursor(Direction::Down);
    assert_eq!(menu.cursor_pos, (1, 1));
    menu.move_cursor(Direction::Left);
    assert_eq!(menu.cursor_pos, (0, 0));
    menu.move_cursor(Direction::Left);
    assert_eq!(menu.cursor_pos, (0, 0));
    menu.move_cursor(Direction::Up);
    assert_eq!(menu.cursor_pos, (0, 0));
}

#[test]
fn column_of_rows_movement() {
    let mut menu = grid(&[3, 2, 4], MenuMovement::ColumnOfRows, (0, 0));
    menu.move_cursor(Direction::Right);
    menu.move_cursor(Direction::Right);
    assert_eq!(menu.cursor_pos, (2, 0));
    menu.move_cursor(Direction::Right);
    assert_eq!(menu.cursor_pos, (2, 0));
    menu.move_cursor(Direction::Down);
    assert_eq!(menu.cursor_pos, (0, 1));
    menu.move_cursor(Direction::Right);
    assert_eq!(menu.cursor_pos, (1, 1));
    menu.move_cursor(Direction::Right);
    assert_eq!(menu.cursor_pos, (1, 1));
    menu.move_cursor(Direction::Down);
    assert_eq!(menu.cursor_pos, (0, 2));
    menu.move_cursor(Direction::Down);
    assert_eq!(menu.cursor_pos, (0, 2));
    menu.move_cursor(Direction::Up);
    assert_eq!(menu.cursor_pos, (0, 1));
    menu.cursor_pos = (3, 1);
    menu.move_cursor(Direction::Left);
    assert_eq!(menu.cursor_pos, (2, 1));
}

#[test]
fn an_arrow_ends_the_tick() {
    let mut menu = grid(&[3, 3], MenuMovement::Grid, (0, 1));
    menu.mutation = MenuMutation::DefaultMutation(MenuChange::CountExperience);
    let report = menu.update(GameMode::Menu, Keys { up: true, right: true, ..no_keys() });
    assert_eq!(menu.cursor_pos, (0, 0));
    assert!(matches!(report.mutation, MenuMutation::Nothing));
    // the latch of the key not looked at is still clear
    assert!(menu.input_cooldowns.up);
    assert!(!menu.input_cooldowns.right);
    let report = menu.update(GameMode::Menu, Keys { up: true, right: true, ..no_keys() });
    assert_eq!(menu.cursor_pos, (1, 0));
    assert!(matches!(report.mutation, MenuMutation::Nothing));
    let report = menu.update(GameMode::Menu, Keys { up: true, right: true, ..no_keys() });
    assert_eq!(menu.cursor_pos, (1, 0));
    assert!(matches!(report.mutation, MenuMutation::DefaultMutation(MenuChange::CountExperience)));
}

#[test]
fn choosing_starts_a_change_or_closes_the_menu() {
    let targets = PartyTargets { first: true, second: false, third: false, fourth: false };
    let blow = ActionParameters::plain(DamageType::Physical, 4);
    let mut menu = MenuScreen::new(
        true,
        vec![vec![
            OnClickEvent::MutateMenu(MenuChange::ToggleRow),
            OnClickEvent::UseItemInMenu(targets, (1, 2)),
            OnClickEvent::ActOnTarget((1, 0), blow),
            OnClickEvent::ToMenuScreen(MenuId::Items, (0, 0)),
        ]],
        (0, 0),
        MenuMovement::Grid,
        OnClickEvent::Nothing,
    );
    menu.update(GameMode::Menu, no_keys());
    let report = menu.update(GameMode::Menu, Keys { a: true, ..no_keys() });
    assert!(matches!(report.click, Some(OnClickEvent::MutateMenu(MenuChange::ToggleRow))));
    assert!(matches!(report.mutation, MenuMutation::DefaultMutation(MenuChange::ToggleRow)));
    assert!(matches!(menu.mutation, MenuMutation::DefaultMutation(MenuChange::ToggleRow)));
    menu.update(GameMode::Menu, Keys { down: true, ..no_keys() });
    let report = menu.update(GameMode::Menu, Keys { a: true, ..no_keys() });
    assert!(matches!(report.mutation, MenuMutation::UseItemInMenu(t, (1, 2)) if t == targets));
    menu.update(GameMode::Menu, no_keys());
    menu.update(GameMode::Menu, Keys { down: true, ..no_keys() });
    assert!(menu.open);
    let report = menu.update(GameMode::Battle, Keys { a: true, ..no_keys() });
    assert!(matches!(report.click, Some(OnClickEvent::ActOnTarget((1, 0), a)) if a == blow));
    assert!(!menu.open);
    menu.open = true;
    menu.update(GameMode::Menu, no_keys());
    menu.update(GameMode::Menu, Keys { down: true, ..no_keys() });
    menu.update(GameMode::Menu, no_keys());
    // a choice that replaces the menu ends the tick: the arrow is not looked at
    let report = menu.update(GameMode::Menu, Keys { a: true, up: true, ..no_keys() });
    assert!(matches!(report.click, Some(OnClickEvent::ToMenuScreen(MenuId::Items, (0, 0)))));
    assert_eq!(menu.cursor_pos, (0, 3));
    assert!(!menu.input_cooldowns.up);
    assert!(matches!(report.mutation, MenuMutation::Nothing));
}

#[test]
fn the_main_menu() {
    let menu = main_menu((0, 3));
    assert!(menu.open);
    assert_eq!(menu.cursor_pos, (0, 3));
    assert_eq!(menu.cursor_movement_style, MenuMovement::RowOfColumns);
    assert_eq!(
        shown(&menu),
        vec![vec![
            "MenuTransition(Items, (0, 0))".to_owned(),
            "Nothing".to_owned(),
            "Nothing".to_owned(),
            "ToMenuScreen(RowChange, (0, 0))".to_owned(),
            "Nothing".to_owned(),
        ]]
    );
    assert_eq!(show(&menu.return_action), "Transition(Overworld)");
    assert!(matches!(menu.mutation, MenuMutation::Nothing));
}

#[test]
fn the_item_menu_sorts_and_lays_out_in_two_columns() {
    let mut party = Party::new();
    party.inventory = vec![
        InventoryElement::Item(InventoryItem::new(ItemVariant::Potion), 0),
        InventoryElement::Item(InventoryItem::new(ItemVariant::Ether), 1),
        InventoryElement::Item(InventoryItem::new(ItemVariant::Potion), 2),
        InventoryElement::Item(InventoryItem::new(ItemVariant::Ether), 3),
    ];
    let menu = item_menu(&mut party, (1, 0));
    assert_eq!(
        party.inventory,
        vec![
            InventoryElement::Item(InventoryItem::new(ItemVariant::Ether), 1),
            InventoryElement::Item(InventoryItem::new(ItemVariant::Potion), 2),
            InventoryElement::Item(InventoryItem::new(ItemVariant::Ether), 3),
            InventoryElement::Item(InventoryItem::new(ItemVariant::Potion), 0),
        ]
    );
    assert_eq!(
        shown(&menu),
        vec![
            vec![
                "ToMenuScreen(ItemTarget, (0, 0))".to_owned(),
                "ToMenuScreen(ItemTarget, (0, 1))".to_owned(),
            ],
            vec!["ToMenuScreen(ItemTarget, (1, 0))".to_owned()],
        ]
    );
    assert_eq!(menu.cursor_pos, (1, 0));
    assert_eq!(show(&menu.return_action), "MenuTransition(Main, (0, 0))");
    // a cursor left on an entry that is gone goes back to the last entry
    let menu = item_menu(&mut party, (1, 1));
    assert_eq!(menu.cursor_pos, (0, 1));
    let menu = item_menu(&mut party, (0, 2));
    assert_eq!(menu.cursor_pos, (1, 1));
    let menu = item_menu(&mut party, (0, 0));
    assert_eq!(menu.cursor_pos, (0, 0));
    let mut broke = Party::new();
    broke.inventory = vec![InventoryElement::Item(InventoryItem::new(ItemVariant::Potion), 0)];
    let menu = item_menu(&mut broke, (0, 0));
    assert_eq!(shown(&menu), vec![vec!["Nothing".to_owned()]]);
}

#[test]
fn the_row_menu_has_an_entry_for_each_member_there() {
    let mut party = Party::new();
    party.fourth = darrel_deen(4);
    let menu = row_change_menu(&party, (0, 1));
    assert_eq!(shown(&menu), vec![vec!["MutateMenu(ToggleRow)".to_owned(); 3]]);
    assert_eq!(menu.cursor_pos, (0, 1));
    assert_eq!(menu.cursor_movement_style, MenuMovement::RowOfColumns);
    assert_eq!(show(&menu.return_action), "ToMenuScreen(Main, (0, 3))");
}

#[test]
fn the_battle_menu_offers_the_members_abilities() {
    let menu = battle_main(&nurse_seraphine(2), (0, 1));
    let entries = shown(&menu);
    assert_eq!(entries.len(), 1);
    assert_eq!(entries[0].len(), 6);
    assert!(matches!(
        menu.selectable_items[0][1],
        OnClickEvent::ToTargetSelection(a, (0, 1)) if a == ActionParameters::plain(DamageType::Healing, 4)
    ));
    assert_eq!(entries[0][2], "Nothing");
    assert_eq!(entries[0][3], "ToMenuScreen(BattleItems, (0, 3))");
    assert_eq!(entries[0][4], "Nothing");
    assert_eq!(menu.cursor_pos, (0, 1));
    assert_eq!(show(&menu.return_action), "Nothing");
    let thief = battle_main(&darrel_deen(1), (0, 0));
    assert!(matches!(
        thief.selectable_items[0][2],
        OnClickEvent::BattleAction(BattleAction::Flee)
    ));
}

#[test]
fn the_battle_item_menu_lists_the_stocked() {
    let mut party = Party::new();
    party.inventory = vec![
        InventoryElement::Item(InventoryItem::new(ItemVariant::Potion), 0),
        InventoryElement::Item(InventoryItem::new(ItemVariant::Ether), 1),
        InventoryElement::Item(InventoryItem::new(ItemVariant::Potion), 2),
    ];
    let menu = battle_item_menu(&party, (0, 3));
    assert_eq!(menu.selectable_items.len(), 1);
    assert_eq!(menu.selectable_items[0].len(), 2);
    let ether = InventoryItem::new(ItemVariant::Ether);
    let potion = InventoryItem::new(ItemVariant::Potion);
    assert!(matches!(
        menu.selectable_items[0][0],
        OnClickEvent::ToTargetSelection(a, (0, 0)) if a == ActionParameters::plain(DamageType::Item(ether), 0)
    ));
    assert!(matches!(
        menu.selectable_items[0][1],
        OnClickEvent::ToTargetSelection(a, (0, 1)) if a == ActionParameters::plain(DamageType::Item(potion), 0)
    ));
    assert_eq!(show(&menu.return_action), "ToMenuScreen(BattleMain, (0, 3))");
    assert_eq!(menu.cursor_pos, (0, 0));
    party.inventory.clear();
    assert_eq!(shown(&battle_item_menu(&party, (0, 3))), vec![vec!["Nothing".to_owned()]]);
    assert!(matches!(
        potion.get_to_menu_click_event((1, 4)),
        OnClickEvent::ToMenuScreen(MenuId::ItemTarget, (1, 4))
    ));
    assert!(matches!(
        ether.get_target_selection_click_event(6),
        OnClickEvent::ToTargetSelection(_, (0, 6))
    ));
}

#[test]
fn the_target_selection_lists_who_can_be_targeted() {
    let mut party = Party::new();
    party.third = nurse_seraphine(3);
    party.second.state.hp = 0;
    let mut enemies = vec![
        vec![test_triangle(5, (0, 0), (0, 0)), test_triangle(6, (0, 2), (0, 1))],
        vec![test_circle(7, (1, 0), (1, 0))],
        vec![test_circle(8, (2, 0), (2, 0)), test_circle(9, (2, 1), (2, 1))],
    ];
    enemies[0][0].state.hp = 0;
    enemies[1][0].state.hp = 0;
    let blow = ActionParameters::plain(DamageType::Physical, 4);
    let menu = to_target_selection(&party, &enemies, &blow, (0, 2));
    let targets: Vec<Vec<(usize, usize)>> = menu
        .selectable_items
        .iter()
        .map(|l| {
            l.iter()
                .map(|e| match e {
                    OnClickEvent::ActOnTarget(pos, action) => {
                        assert_eq!(*action, blow);
                        *pos
                    }
                    other => panic!("{:?}", other),
                })
                .collect()
        })
        .collect();
    // the column of the spent circle is left out altogether
    assert_eq!(targets, vec![vec![(0, 0), (0, 2)], vec![(1, 1)], vec![(3, 0), (3, 1)]]);
    assert_eq!(menu.cursor_pos, (1, 0));
    assert_eq!(show(&menu.return_action), "ToMenuScreen(BattleMain, (0, 2))");
    let menu = battle_target_selection(&party, &Vec::new(), (0, 1), &blow, (0, 0));
    assert_eq!(menu.selectable_items.len(), 1);
    assert_eq!(menu.cursor_pos, (0, 1));
}

#[test]
fn the_choice_of_a_member_for_an_item() {
    let mut party = Party::new();
    party.fourth = darrel_deen(4);
    let menu = item_target_menu(&party, (1, 2));
    let targets: Vec<PartyTargets> = menu.selectable_items[0]
        .iter()
        .map(|e| match e {
            OnClickEvent::UseItemInMenu(targets, (1, 2)) => *targets,
            other => panic!("{:?}", other),
        })
        .collect();
    let only = |slot: usize| PartyTargets {
        first: slot == 0,
        second: slot == 1,
        third: slot == 2,
        fourth: slot == 3,
    };
    assert_eq!(targets, vec![only(0), only(1), only(3)]);
    assert_eq!(menu.selectable_items.len(), 1);
    assert_eq!(menu.cursor_pos, (0, 0));
    assert_eq!(show(&menu.return_action), "ToMenuScreen(Items, (1, 2))");
}

#[test]
fn the_victory_summary() {
    let menu = battle_won();
    assert_eq!(shown(&menu), vec![vec!["MutateMenu(StartExperienceCount)".to_owned()]]);
    assert_eq!(show(&menu.return_action), "Nothing");
    assert!(menu.open);
}
