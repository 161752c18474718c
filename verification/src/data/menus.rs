//! The menus: which entries each holds and what each entry asks for.

use crate::battle::action::ActionParameters;
use crate::battle::enemy::Enemy;
use crate::battle::roster_of;
use crate::menu::input_cooldowns::InputCooldowns;
use crate::menu::item::{MenuChange, MenuId, OnClickEvent, PartyTargets};
use crate::menu::{MenuMovement, MenuScreen};
use crate::party::character::Character;
use crate::party::{sort_inventory, stocked_first, InventoryElement, Party, PartyView};
use crate::GameMode;
use vstd::prelude::*;

verus! {

/// A menu's entries as a value.
pub open spec fn entries_of(items: Vec<Vec<OnClickEvent>>) -> Seq<Seq<OnClickEvent>> {
    Seq::new(items@.len(), |i: int| items@[i]@)
}

/// Whether `menu` is a fresh menu of the given make.
pub open spec fn is_menu(
    menu: MenuScreen,
    open: bool,
    entries: Seq<Seq<OnClickEvent>>,
    cursor_pos: (usize, usize),
    style: MenuMovement,
    return_action: OnClickEvent,
) -> bool {
    &&& menu.open == open
    &&& entries_of(menu.selectable_items) == entries
    &&& menu.cursor_pos == cursor_pos
    &&& menu.cursor_movement_style == style
    &&& menu.return_action == return_action
    &&& menu.mutation is Nothing
    &&& menu.input_cooldowns == (InputCooldowns {
        a: true,
        s: true,
        d: true,
        f: true,
        up: true,
        down: true,
        left: true,
        right: true,
    })
}

/// Puts a menu together from its lists.
fn build(
    open: bool,
    lists: Vec<Vec<OnClickEvent>>,
    cursor_pos: (usize, usize),
    style: MenuMovement,
    return_action: OnClickEvent,
) -> (menu: MenuScreen)
    ensures
        is_menu(menu, open, entries_of(lists), cursor_pos, style, return_action),
{
    MenuScreen::new(open, lists, cursor_pos, style, return_action)
}

/// A list of one entry.
fn single(event: OnClickEvent) -> (list: Vec<OnClickEvent>)
    ensures
        list@ == seq![event],
{
    let mut list: Vec<OnClickEvent> = Vec::new();
    list.push(event);
    list
}

/// A menu of one list.
fn one_list(list: Vec<OnClickEvent>) -> (lists: Vec<Vec<OnClickEvent>>)
    ensures
        entries_of(lists) == seq![list@],
{
    let mut lists: Vec<Vec<OnClickEvent>> = Vec::new();
    lists.push(list);
    assert(entries_of(lists) =~= seq![list@]);
    lists
}

/// No menu: closed, with one empty list.
pub fn none_menu() -> (menu: MenuScreen)
    ensures
        is_menu(
            menu,
            false,
            seq![Seq::<OnClickEvent>::empty()],
            (0, 0),
            MenuMovement::Grid,
            OnClickEvent::Nothing,
        ),
{
    build(false, one_list(Vec::new()), (0, 0), MenuMovement::Grid, OnClickEvent::Nothing)
}

/// The entries of the main menu: items, abilities, equipment, rows and
/// configuration, of which items and rows lead somewhere.
pub open spec fn main_entries() -> Seq<OnClickEvent> {
    seq![
        OnClickEvent::MenuTransition(MenuId::Items, (0, 0)),
        OnClickEvent::Nothing,
        OnClickEvent::Nothing,
        OnClickEvent::ToMenuScreen(MenuId::RowChange, (0, 0)),
        OnClickEvent::Nothing,
    ]
}

/// The main menu. Backing out of it leads to the map.
pub fn main_menu(cursor_start: (usize, usize)) -> (menu: MenuScreen)
    ensures
        is_menu(
            menu,
            true,
            seq![main_entries()],
            cursor_start,
            MenuMovement::RowOfColumns,
            OnClickEvent::Transition(GameMode::Overworld),
        ),
{
    let mut list: Vec<OnClickEvent> = Vec::new();
    list.push(OnClickEvent::MenuTransition(MenuId::Items, (0, 0)));
    list.push(OnClickEvent::Nothing);
    list.push(OnClickEvent::Nothing);
    list.push(OnClickEvent::ToMenuScreen(MenuId::RowChange, (0, 0)));
    list.push(OnClickEvent::Nothing);
    assert(list@ =~= main_entries());
    build(
        true,
        one_list(list),
        cursor_start,
        MenuMovement::RowOfColumns,
        OnClickEvent::Transition(GameMode::Overworld),
    )
}

/// The entries of one column of the item menu: of the first `n` stacks,
/// those with units left whose place has the parity `parity`. The stack at
/// place `i` stands in column `i % 2` and row `i / 2`.
pub open spec fn item_column(inventory: Seq<InventoryElement>, parity: int, n: int) -> Seq<
    OnClickEvent,
>
    decreases n,
{
    if n <= 0 {
        Seq::empty()
    } else if (n - 1) % 2 == parity && inventory[n - 1].amount() > 0 {
        item_column(inventory, parity, n - 1).push(
            OnClickEvent::ToMenuScreen(
                MenuId::ItemTarget,
                (((n - 1) % 2) as usize, ((n - 1) / 2) as usize),
            ),
        )
    } else {
        item_column(inventory, parity, n - 1)
    }
}

/// The entries of the item menu: the stacks with units left in two columns,
/// or a single entry that does nothing if no stack has any.
pub open spec fn item_entries(inventory: Seq<InventoryElement>) -> Seq<Seq<OnClickEvent>> {
    let first = item_column(inventory, 0, inventory.len() as int);
    let second = item_column(inventory, 1, inventory.len() as int);
    if first.len() == 0 {
        seq![seq![OnClickEvent::Nothing]]
    } else {
        seq![first, second]
    }
}

/// Where the item menu's cursor starts, given where it was: on the spot if
/// there is an entry there; else, from an even column, one column on and one
/// row up, and from an odd column, one column back.
pub open spec fn item_cursor(entries: Seq<Seq<OnClickEvent>>, cursor: (usize, usize)) -> (
    usize,
    usize,
) {
    if cursor.0 < entries.len() && cursor.1 < entries[cursor.0 as int].len() {
        cursor
    } else if cursor.0 % 2 == 0 {
        if cursor.0 < usize::MAX && cursor.1 > 0 {
            ((cursor.0 + 1) as usize, (cursor.1 - 1) as usize)
        } else {
            cursor
        }
    } else {
        ((cursor.0 - 1) as usize, cursor.1)
    }
}

/// The item menu. Opening it brings the stacks that have units left to the
/// front of the inventory. Backing out of it leads to the main menu.
pub fn item_menu(party: &mut Party, cursor_start: (usize, usize)) -> (menu: MenuScreen)
    ensures
        final(party).inventory@ == stocked_first(old(party).inventory@),
        final(party).first == old(party).first,
        final(party).second == old(party).second,
        final(party).third == old(party).third,
        final(party).fourth == old(party).fourth,
        is_menu(
            menu,
            true,
            item_entries(final(party).inventory@),
            item_cursor(item_entries(final(party).inventory@), cursor_start),
            MenuMovement::Grid,
            OnClickEvent::MenuTransition(MenuId::Main, (0, 0)),
        ),
{
    sort_inventory(&mut party.inventory);
    let mut first_item_column: Vec<OnClickEvent> = Vec::new();
    let mut second_item_column: Vec<OnClickEvent> = Vec::new();
    let mut index: usize = 0;
    while index < party.inventory.len()
        invariant
            0 <= index <= party.inventory.len(),
            first_item_column@ == item_column(party.inventory@, 0, index as int),
            second_item_column@ == item_column(party.inventory@, 1, index as int),
        decreases party.inventory.len() - index,
    {
        let InventoryElement::Item(item, amount) = party.inventory[index];
        if amount > 0 {
            let click_event = item.get_to_menu_click_event((index % 2, index / 2));
            if index % 2 == 0 {
                first_item_column.push(click_event);
            } else {
                second_item_column.push(click_event);
            }
        }
        index = index + 1;
    }
    let mut selectable_items: Vec<Vec<OnClickEvent>> = Vec::new();
    if first_item_column.len() == 0 {
        selectable_items.push(single(OnClickEvent::Nothing));
    } else {
        selectable_items.push(first_item_column);
        selectable_items.push(second_item_column);
    }
    assert(entries_of(selectable_items) =~= item_entries(party.inventory@));
    let mut cursor = cursor_start;
    let valid = cursor.0 < selectable_items.len() && cursor.1 < selectable_items[cursor.0].len();
    if !valid {
        if cursor.0 % 2 == 0 {
            if cursor.0 < usize::MAX && cursor.1 > 0 {
                cursor = (cursor.0 + 1, cursor.1 - 1);
            }
        } else {
            cursor = (cursor.0 - 1, cursor.1);
        }
    }
    build(
        true,
        selectable_items,
        cursor,
        MenuMovement::Grid,
        OnClickEvent::MenuTransition(MenuId::Main, (0, 0)),
    )
}

/// The entry that uses the item under `item_cursor` of the item menu on the
/// party member in `slot`, if the member is there.
pub open spec fn member_item_target(member: Character, slot: int, item_cursor: (usize, usize)) -> Seq<
    OnClickEvent,
> {
    if member.is_present() {
        seq![
            OnClickEvent::UseItemInMenu(
                PartyTargets {
                    first: slot == 0,
                    second: slot == 1,
                    third: slot == 2,
                    fourth: slot == 3,
                },
                item_cursor,
            ),
        ]
    } else {
        Seq::empty()
    }
}

/// The entries of the choice of a party member for an item: one for each
/// member that is there, using the item on that member alone.
pub open spec fn item_target_entries(party: PartyView, item_cursor: (usize, usize)) -> Seq<
    OnClickEvent,
> {
    member_item_target(party.first, 0, item_cursor) + member_item_target(
        party.second,
        1,
        item_cursor,
    ) + member_item_target(party.third, 2, item_cursor) + member_item_target(
        party.fourth,
        3,
        item_cursor,
    )
}

/// Adds the entry for a party member to the choice of a member for an item.
fn push_item_target(
    list: &mut Vec<OnClickEvent>,
    character: &Character,
    slot: usize,
    item_cursor: (usize, usize),
)
    ensures
        final(list)@ == old(list)@ + member_item_target(*character, slot as int, item_cursor),
{
    if character.present() {
        list.push(
            OnClickEvent::UseItemInMenu(
                PartyTargets {
                    first: slot == 0,
                    second: slot == 1,
                    third: slot == 2,
                    fourth: slot == 3,
                },
                item_cursor,
            ),
        );
    }
    assert(list@ =~= old(list)@ + member_item_target(*character, slot as int, item_cursor));
}

/// The choice of a party member for the item under `item_cursor` of the
/// item menu. Backing out of it leads back to the item menu, with the cursor
/// on the item.
pub fn item_target_menu(party: &Party, item_cursor: (usize, usize)) -> (menu: MenuScreen)
    ensures
        is_menu(
            menu,
            true,
            seq![item_target_entries(party@, item_cursor)],
            (0, 0),
            MenuMovement::Grid,
            OnClickEvent::ToMenuScreen(MenuId::Items, item_cursor),
        ),
{
    let mut list: Vec<OnClickEvent> = Vec::new();
    push_item_target(&mut list, &party.first, 0, item_cursor);
    push_item_target(&mut list, &party.second, 1, item_cursor);
    push_item_target(&mut list, &party.third, 2, item_cursor);
    push_item_target(&mut list, &party.fourth, 3, item_cursor);
    assert(list@ =~= item_target_entries(party@, item_cursor));
    build(
        true,
        one_list(list),
        (0, 0),
        MenuMovement::Grid,
        OnClickEvent::ToMenuScreen(MenuId::Items, item_cursor),
    )
}

/// The entries of the row menu: one for each member that is there, each
/// changing that member's row.
pub open spec fn row_entries(party: PartyView) -> Seq<OnClickEvent> {
    Seq::new(party.present_slots().len(), |i: int| OnClickEvent::MutateMenu(MenuChange::ToggleRow))
}

/// The row menu. Backing out of it leads to the main menu, with the cursor
/// on the entry that led here.
pub fn row_change_menu(party: &Party, cursor_start: (usize, usize)) -> (menu: MenuScreen)
    ensures
        is_menu(
            menu,
            true,
            seq![row_entries(party@)],
            cursor_start,
            MenuMovement::RowOfColumns,
            OnClickEvent::ToMenuScreen(MenuId::Main, (0, 3)),
        ),
{
    let slots = party.present_slots();
    let mut list: Vec<OnClickEvent> = Vec::new();
    let mut i: usize = 0;
    while i < slots.len()
        invariant
            0 <= i <= slots.len(),
            list@.len() == i,
            forall|k: int|
                0 <= k < i ==> (#[trigger] list@[k]) == OnClickEvent::MutateMenu(
                    MenuChange::ToggleRow,
                ),
        decreases slots.len() - i,
    {
        list.push(OnClickEvent::MutateMenu(MenuChange::ToggleRow));
        i = i + 1;
    }
    assert(list@ =~= row_entries(party@));
    build(
        true,
        one_list(list),
        cursor_start,
        MenuMovement::RowOfColumns,
        OnClickEvent::ToMenuScreen(MenuId::Main, (0, 3)),
    )
}

/// The entries of a party member's battle menu: its three abilities, the
/// items, and two entries that do nothing.
pub open spec fn battle_entries(character: Character) -> Seq<OnClickEvent> {
    seq![
        character.attack_ability.1,
        character.primary_ability.1,
        character.secondary_ability.1,
        OnClickEvent::ToMenuScreen(MenuId::BattleItems, (0, 3)),
        OnClickEvent::Nothing,
        OnClickEvent::Nothing,
    ]
}

/// The battle menu of a party member. There is no backing out of it.
pub fn battle_main(character: &Character, cursor_start: (usize, usize)) -> (menu: MenuScreen)
    ensures
        is_menu(
            menu,
            true,
            seq![battle_entries(*character)],
            cursor_start,
            MenuMovement::Grid,
            OnClickEvent::Nothing,
        ),
{
    let mut list: Vec<OnClickEvent> = Vec::new();
    list.push(character.attack_ability.1);
    list.push(character.primary_ability.1);
    list.push(character.secondary_ability.1);
    list.push(OnClickEvent::ToMenuScreen(MenuId::BattleItems, (0, 3)));
    list.push(OnClickEvent::Nothing);
    list.push(OnClickEvent::Nothing);
    assert(list@ =~= battle_entries(*character));
    build(true, one_list(list), cursor_start, MenuMovement::Grid, OnClickEvent::Nothing)
}

/// The entries of the battle's item menu among the first `n` stacks: one
/// for each stack with units left, asking for a target for the item's use
/// and remembering the entry's own row.
pub open spec fn battle_item_entries(inventory: Seq<InventoryElement>, n: int) -> Seq<OnClickEvent>
    decreases n,
{
    if n <= 0 {
        Seq::empty()
    } else {
        let before = battle_item_entries(inventory, n - 1);
        if inventory[n - 1].amount() > 0 {
            before.push(
                OnClickEvent::ToTargetSelection(
                    inventory[n - 1].item().action(),
                    (0, before.len() as usize),
                ),
            )
        } else {
            before
        }
    }
}

/// The entries of the battle's item menu, or a single entry that does
/// nothing if no stack has units left.
pub open spec fn battle_item_list(inventory: Seq<InventoryElement>) -> Seq<OnClickEvent> {
    let entries = battle_item_entries(inventory, inventory.len() as int);
    if entries.len() == 0 {
        seq![OnClickEvent::Nothing]
    } else {
        entries
    }
}

/// The battle's item menu. Backing out of it leads to the battle menu, with
/// the cursor where it was.
pub fn battle_item_menu(party: &Party, cursor_start: (usize, usize)) -> (menu: MenuScreen)
    ensures
        is_menu(
            menu,
            true,
            seq![battle_item_list(party.inventory@)],
            (0, 0),
            MenuMovement::Grid,
            OnClickEvent::ToMenuScreen(MenuId::BattleMain, cursor_start),
        ),
{
    let mut selectable_items: Vec<OnClickEvent> = Vec::new();
    let mut i: usize = 0;
    while i < party.inventory.len()
        invariant
            0 <= i <= party.inventory.len(),
            selectable_items@ == battle_item_entries(party.inventory@, i as int),
            selectable_items@.len() <= i,
        decreases party.inventory.len() - i,
    {
        let InventoryElement::Item(item, amount) = party.inventory[i];
        if amount > 0 {
            let index = selectable_items.len();
            selectable_items.push(item.get_target_selection_click_event(index));
        }
        i = i + 1;
    }
    if selectable_items.len() == 0 {
        selectable_items.push(OnClickEvent::Nothing);
        assert(selectable_items@ =~= seq![OnClickEvent::Nothing]);
    }
    build(
        true,
        one_list(selectable_items),
        (0, 0),
        MenuMovement::Grid,
        OnClickEvent::ToMenuScreen(MenuId::BattleMain, cursor_start),
    )
}

/// The entry that carries `action` out on the party member in `slot`, if
/// the member can be targeted: it is there and alive.
pub open spec fn member_target(member: Character, slot: usize, action: ActionParameters) -> Seq<
    OnClickEvent,
> {
    if member.is_alive() {
        seq![OnClickEvent::ActOnTarget((0, slot), action)]
    } else {
        Seq::empty()
    }
}

/// The party's column of the target selection.
pub open spec fn party_targets(party: PartyView, action: ActionParameters) -> Seq<OnClickEvent> {
    member_target(party.first, 0, action) + member_target(party.second, 1, action)
        + member_target(party.third, 2, action) + member_target(party.fourth, 3, action)
}

/// The column an enemy is targeted in: one past its own, column zero being
/// the party's.
pub open spec fn target_column(enemy: Enemy) -> usize {
    if enemy.selection_pos.0 < usize::MAX {
        (enemy.selection_pos.0 + 1) as usize
    } else {
        usize::MAX
    }
}

/// The entries for the first `n` enemies of a column: one for each enemy
/// with hit points left, carrying `action` out on it.
pub open spec fn column_targets(column: Seq<Enemy>, action: ActionParameters, n: int) -> Seq<
    OnClickEvent,
>
    decreases n,
{
    if n <= 0 {
        Seq::empty()
    } else if column[n - 1].state.hp != 0 {
        column_targets(column, action, n - 1).push(
            OnClickEvent::ActOnTarget(
                (target_column(column[n - 1]), column[n - 1].selection_pos.1),
                action,
            ),
        )
    } else {
        column_targets(column, action, n - 1)
    }
}

/// The enemies' columns of the target selection among the first `n`
/// columns of the formation: a column with nobody to target is left out.
pub open spec fn enemy_targets(roster: Seq<Seq<Enemy>>, action: ActionParameters, n: int) -> Seq<
    Seq<OnClickEvent>,
>
    decreases n,
{
    if n <= 0 {
        Seq::empty()
    } else {
        let column = column_targets(roster[n - 1], action, roster[n - 1].len() as int);
        if column.len() > 0 {
            enemy_targets(roster, action, n - 1).push(column)
        } else {
            enemy_targets(roster, action, n - 1)
        }
    }
}

/// The entries of the target selection: the party's column, then the
/// enemies' columns.
pub open spec fn target_entries(
    party: PartyView,
    roster: Seq<Seq<Enemy>>,
    action: ActionParameters,
) -> Seq<Seq<OnClickEvent>> {
    seq![party_targets(party, action)] + enemy_targets(roster, action, roster.len() as int)
}

/// Adds the entry for a party member to the party's column.
fn push_character(
    party_column: &mut Vec<OnClickEvent>,
    character: &Character,
    slot: usize,
    action_parameters: &ActionParameters,
)
    ensures
        final(party_column)@ == old(party_column)@ + member_target(
            *character,
            slot,
            *action_parameters,
        ),
{
    if character.alive() {
        party_column.push(OnClickEvent::ActOnTarget((0, slot), action_parameters.clone()));
        assert(party_column@ =~= old(party_column)@ + member_target(
            *character,
            slot,
            *action_parameters,
        ));
    } else {
        assert(party_column@ =~= old(party_column)@ + member_target(
            *character,
            slot,
            *action_parameters,
        ));
    }
}

/// The target selection for `action`: every party member and enemy that
/// can be targeted, each entry carrying the action out on its target.
/// Backing out of it leads to the battle menu, with the cursor at
/// `cursor_memory`.
pub fn battle_target_selection(
    party: &Party,
    enemies: &Vec<Vec<Enemy>>,
    cursor_pos: (usize, usize),
    action_parameters: &ActionParameters,
    cursor_memory: (usize, usize),
) -> (menu: MenuScreen)
    ensures
        is_menu(
            menu,
            true,
            target_entries(party@, roster_of(*enemies), *action_parameters),
            cursor_pos,
            MenuMovement::Grid,
            OnClickEvent::ToMenuScreen(MenuId::BattleMain, cursor_memory),
        ),
{
    let ghost roster = roster_of(*enemies);
    let ghost action = *action_parameters;
    let mut party_column: Vec<OnClickEvent> = Vec::new();
    push_character(&mut party_column, &party.first, 0, action_parameters);
    push_character(&mut party_column, &party.second, 1, action_parameters);
    push_character(&mut party_column, &party.third, 2, action_parameters);
    push_character(&mut party_column, &party.fourth, 3, action_parameters);
    assert(party_column@ =~= party_targets(party@, action));
    let mut target_positions: Vec<Vec<OnClickEvent>> = Vec::new();
    target_positions.push(party_column);
    let mut i: usize = 0;
    while i < enemies.len()
        invariant
            0 <= i <= enemies.len(),
            roster == roster_of(*enemies),
            action == *action_parameters,
            entries_of(target_positions) == seq![party_targets(party@, action)] + enemy_targets(
                roster,
                action,
                i as int,
            ),
        decreases enemies.len() - i,
    {
        let mut column_vec: Vec<OnClickEvent> = Vec::new();
        let mut j: usize = 0;
        while j < enemies[i].len()
            invariant
                0 <= j <= enemies[i as int].len(),
                i < enemies.len(),
                roster == roster_of(*enemies),
                action == *action_parameters,
                column_vec@ == column_targets(roster[i as int], action, j as int),
            decreases enemies[i as int].len() - j,
        {
            let enemy = &enemies[i][j];
            if enemy.state.hp != 0 {
                let column = if enemy.selection_pos.0 < usize::MAX {
                    enemy.selection_pos.0 + 1
                } else {
                    usize::MAX
                };
                column_vec.push(
                    OnClickEvent::ActOnTarget(
                        (column, enemy.selection_pos.1),
                        action_parameters.clone(),
                    ),
                );
            }
            j = j + 1;
        }
        let ghost before = entries_of(target_positions);
        if column_vec.len() > 0 {
            target_positions.push(column_vec);
            assert(entries_of(target_positions) =~= before.push(column_vec@));
        }
        assert(entries_of(target_positions) =~= seq![party_targets(party@, action)]
            + enemy_targets(roster, action, i + 1));
        i = i + 1;
    }
    build(
        true,
        target_positions,
        cursor_pos,
        MenuMovement::Grid,
        OnClickEvent::ToMenuScreen(MenuId::BattleMain, cursor_memory),
    )
}

/// The target selection as it opens: the cursor is on the first enemy
/// column's top.
pub fn to_target_selection(
    party: &Party,
    enemies: &Vec<Vec<Enemy>>,
    action_parameters: &ActionParameters,
    cursor_memory: (usize, usize),
) -> (menu: MenuScreen)
    ensures
        is_menu(
            menu,
            true,
            target_entries(party@, roster_of(*enemies), *action_parameters),
            (1, 0),
            MenuMovement::Grid,
            OnClickEvent::ToMenuScreen(MenuId::BattleMain, cursor_memory),
        ),
{
    battle_target_selection(party, enemies, (1, 0), action_parameters, cursor_memory)
}

/// The victory summary: a single entry that starts the count of the
/// experience. There is no backing out of it.
pub fn battle_won() -> (menu: MenuScreen)
    ensures
        is_menu(
            menu,
            true,
            seq![seq![OnClickEvent::MutateMenu(MenuChange::StartExperienceCount)]],
            (0, 0),
            MenuMovement::Grid,
            OnClickEvent::Nothing,
        ),
{
    build(
        true,
        one_list(single(OnClickEvent::MutateMenu(MenuChange::StartExperienceCount))),
        (0, 0),
        MenuMovement::Grid,
        OnClickEvent::Nothing,
    )
}

} // verus!
