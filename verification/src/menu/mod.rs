//! Menus, as far as the engine is concerned: where the cursor is, what the
//! entry under it asks for, and how the keys move the one and choose the
//! other. How a menu looks is the caller's business.

pub mod input_cooldowns;
pub mod item;
pub mod notification;

use crate::menu::input_cooldowns::{fresh_press, take_press, InputCooldowns};
use crate::menu::item::{MenuChange, OnClickEvent, PartyTargets};
use crate::GameMode;
use vstd::prelude::*;

verus! {

/// How the arrow keys move the cursor over a menu's entries, which are held
/// as a list of lists.
#[derive(Clone, Copy, Debug, PartialEq, Eq, Structural)]
pub enum MenuMovement {
    /// Up and down move within a list, left and right to a neighbouring
    /// list that is long enough.
    Grid,
    /// Up and down move between lists and back to the first column, left
    /// and right within a list.
    ColumnOfRows,
    /// Up and down move within a list, left and right between lists and
    /// back to the top.
    RowOfColumns,
}

/// The change a menu is in the middle of, carried out once a tick until the
/// change takes itself back.
#[derive(Clone, Copy, Debug)]
pub enum MenuMutation {
    Nothing,
    DefaultMutation(MenuChange),
    UseItemInMenu(PartyTargets, (usize, usize)),
}

/// The keys a menu listens to, each down or not.
#[derive(Clone, Copy, Debug, PartialEq, Eq, Structural)]
pub struct Keys {
    pub a: bool,
    pub s: bool,
    pub f: bool,
    pub up: bool,
    pub down: bool,
    pub left: bool,
    pub right: bool,
}

/// The four ways the cursor can be sent.
#[derive(Clone, Copy, Debug, PartialEq, Eq, Structural)]
pub enum Direction {
    Up,
    Down,
    Left,
    Right,
}

/// A menu: its entries' events, list by list, and the cursor over them. The
/// cursor is a pair of list and place in the list.
pub struct MenuScreen {
    pub open: bool,
    pub selectable_items: Vec<Vec<OnClickEvent>>,
    pub cursor_pos: (usize, usize),
    pub cursor_movement_style: MenuMovement,
    pub input_cooldowns: InputCooldowns,
    pub return_action: OnClickEvent,
    pub mutation: MenuMutation,
}

/// What a tick of a menu asks of the caller.
#[derive(Clone, Copy, Debug)]
pub struct MenuReport {
    /// The main menu was called for from the map.
    pub main_menu: bool,
    /// The entry under the cursor was chosen; this is what it asks for.
    pub click: Option<OnClickEvent>,
    /// The menu was backed out of; this is what that asks for.
    pub back: Option<OnClickEvent>,
    /// The change the menu is in the middle of, to be carried out now.
    pub mutation: MenuMutation,
}

/// How far a tick of a menu gets.
#[derive(Clone, Copy, Debug, PartialEq, Eq, Structural)]
pub enum Stage {
    /// The tick does not reach the menu: the main menu is called for, or
    /// the menu is closed.
    Unheard,
    /// The tick ends with the choice, which replaces the menu.
    ReplacedByClick,
    /// The tick ends with the backing out, which replaces the menu.
    ReplacedByBack,
    /// The tick looks at every key.
    Through,
}

/// The lengths of a menu's lists.
pub open spec fn lengths_of(items: Vec<Vec<OnClickEvent>>) -> Seq<int> {
    Seq::new(items@.len(), |i: int| items@[i]@.len() as int)
}

/// Whether `pos` names list `pos.0` of the lists whose lengths are given.
pub open spec fn names_list(lengths: Seq<int>, list: int) -> bool {
    0 <= list < lengths.len()
}

/// Where the cursor goes when sent in `direction`.
///
/// A move that would leave the lists, or that reads the length of a list
/// that is not there, is not made.
pub open spec fn cursor_moved(
    style: MenuMovement,
    lengths: Seq<int>,
    pos: (usize, usize),
    direction: Direction,
) -> (usize, usize) {
    match direction {
        Direction::Up => if pos.1 > 0 {
            match style {
                MenuMovement::ColumnOfRows => (0, (pos.1 - 1) as usize),
                _ => (pos.0, (pos.1 - 1) as usize),
            }
        } else {
            pos
        },
        Direction::Down => match style {
            MenuMovement::ColumnOfRows => if pos.1 + 1 < lengths.len() {
                (0, (pos.1 + 1) as usize)
            } else {
                pos
            },
            _ => if names_list(lengths, pos.0 as int) && pos.1 + 1 < lengths[pos.0 as int] {
                (pos.0, (pos.1 + 1) as usize)
            } else {
                pos
            },
        },
        Direction::Left => if pos.0 > 0 {
            match style {
                MenuMovement::Grid => if names_list(lengths, pos.0 - 1) && lengths[pos.0 - 1]
                    >= pos.1 {
                    ((pos.0 - 1) as usize, pos.1)
                } else {
                    pos
                },
                MenuMovement::ColumnOfRows => ((pos.0 - 1) as usize, pos.1),
                MenuMovement::RowOfColumns => ((pos.0 - 1) as usize, 0),
            }
        } else {
            pos
        },
        Direction::Right => match style {
            MenuMovement::Grid => if pos.0 + 1 < lengths.len() && lengths[pos.0 + 1] >= pos.1 {
                ((pos.0 + 1) as usize, pos.1)
            } else {
                pos
            },
            MenuMovement::ColumnOfRows => if names_list(lengths, pos.1 as int) && pos.0 + 1
                < lengths[pos.1 as int] {
                ((pos.0 + 1) as usize, pos.1)
            } else {
                pos
            },
            MenuMovement::RowOfColumns => if pos.0 + 1 < lengths.len() {
                ((pos.0 + 1) as usize, 0)
            } else {
                pos
            },
        },
    }
}

/// The first of the four directions whose key is freshly pressed, in the
/// order up, down, left, right.
pub open spec fn direction_pressed(keys: Keys, latches: InputCooldowns) -> Option<Direction> {
    if fresh_press(keys.up, latches.up) {
        Some(Direction::Up)
    } else if fresh_press(keys.down, latches.down) {
        Some(Direction::Down)
    } else if fresh_press(keys.left, latches.left) {
        Some(Direction::Left)
    } else if fresh_press(keys.right, latches.right) {
        Some(Direction::Right)
    } else {
        None
    }
}

/// The latches after a tick. The keys are looked at in the order a, s, up,
/// down, left, right; a fresh press of a direction ends the tick, so the
/// latches of the directions after it are not touched.
pub open spec fn latches_after(keys: Keys, latches: InputCooldowns) -> InputCooldowns {
    let up = fresh_press(keys.up, latches.up);
    let down = fresh_press(keys.down, latches.down);
    let left = fresh_press(keys.left, latches.left);
    InputCooldowns {
        a: keys.a,
        s: keys.s,
        d: latches.d,
        f: latches.f,
        up: keys.up,
        down: if up {
            latches.down
        } else {
            keys.down
        },
        left: if up || down {
            latches.left
        } else {
            keys.left
        },
        right: if up || down || left {
            latches.right
        } else {
            keys.right
        },
    }
}

/// Whether an event replaces the menu it was chosen in.
pub open spec fn replaces_menu(event: OnClickEvent) -> bool {
    event is ToMenuScreen || event is ToTargetSelection
}

/// Whether backing out of a menu with this event does anything.
pub open spec fn backs_out(event: OnClickEvent) -> bool {
    event is ToMenuScreen || event is Transition || event is MenuTransition
}

impl MenuScreen {
    /// The lengths of the menu's lists.
    pub open spec fn lengths(&self) -> Seq<int> {
        lengths_of(self.selectable_items)
    }

    /// Whether the cursor is over an entry.
    pub open spec fn cursor_valid(&self) -> bool {
        self.cursor_pos.0 < self.selectable_items@.len() && self.cursor_pos.1
            < self.selectable_items@[self.cursor_pos.0 as int]@.len()
    }

    /// What the entry under the cursor asks for; nothing if the cursor is
    /// over no entry.
    pub open spec fn selected(&self) -> OnClickEvent {
        if self.cursor_valid() {
            self.selectable_items@[self.cursor_pos.0 as int]@[self.cursor_pos.1 as int]
        } else {
            OnClickEvent::Nothing
        }
    }

    /// Whether the tick is one on which the main menu is called for: the
    /// map is up and the menu key is down.
    pub open spec fn calls_main_menu(mode: GameMode, keys: Keys) -> bool {
        mode == GameMode::Overworld && keys.f
    }

    /// Whether the tick reaches the menu at all.
    pub open spec fn listens(&self, mode: GameMode, keys: Keys) -> bool {
        !Self::calls_main_menu(mode, keys) && self.open
    }

    /// Whether the entry under the cursor is chosen on this tick.
    pub open spec fn clicks(&self, mode: GameMode, keys: Keys) -> bool {
        self.listens(mode, keys) && fresh_press(keys.a, self.input_cooldowns.a)
    }

    /// Whether the menu is backed out of on this tick.
    pub open spec fn backs(&self, mode: GameMode, keys: Keys) -> bool {
        self.listens(mode, keys) && !(self.clicks(mode, keys) && replaces_menu(self.selected()))
            && fresh_press(keys.s, self.input_cooldowns.s) && backs_out(self.return_action)
    }

    /// How far the tick gets.
    pub open spec fn stage(&self, mode: GameMode, keys: Keys) -> Stage {
        if !self.listens(mode, keys) {
            Stage::Unheard
        } else if self.clicks(mode, keys) && replaces_menu(self.selected()) {
            Stage::ReplacedByClick
        } else if self.backs(mode, keys) && self.return_action is ToMenuScreen {
            Stage::ReplacedByBack
        } else {
            Stage::Through
        }
    }

    /// The change the menu is in the middle of once the choice was looked
    /// at: an entry that changes the menu or uses an item starts a change.
    pub open spec fn mutation_after_click(&self, mode: GameMode, keys: Keys) -> MenuMutation {
        if self.clicks(mode, keys) {
            match self.selected() {
                OnClickEvent::MutateMenu(change) => MenuMutation::DefaultMutation(change),
                OnClickEvent::UseItemInMenu(targets, pos) => MenuMutation::UseItemInMenu(
                    targets,
                    pos,
                ),
                _ => self.mutation,
            }
        } else {
            self.mutation
        }
    }

    /// The direction the cursor is sent in on this tick, if any.
    pub open spec fn moves(&self, mode: GameMode, keys: Keys) -> Option<Direction> {
        if self.stage(mode, keys) == Stage::Through {
            direction_pressed(keys, self.input_cooldowns)
        } else {
            None
        }
    }

    /// The cursor one tick later.
    pub open spec fn cursor_after(&self, mode: GameMode, keys: Keys) -> (usize, usize) {
        match self.moves(mode, keys) {
            Some(direction) => cursor_moved(
                self.cursor_movement_style,
                self.lengths(),
                self.cursor_pos,
                direction,
            ),
            None => self.cursor_pos,
        }
    }

    /// The latches one tick later: each key that was looked at has its latch
    /// set exactly if it is down.
    pub open spec fn cooldowns_after(&self, mode: GameMode, keys: Keys) -> InputCooldowns {
        match self.stage(mode, keys) {
            Stage::Unheard => self.input_cooldowns,
            Stage::ReplacedByClick => InputCooldowns { a: keys.a, ..self.input_cooldowns },
            Stage::ReplacedByBack => InputCooldowns { a: keys.a, s: keys.s, ..self.input_cooldowns },
            Stage::Through => latches_after(keys, self.input_cooldowns),
        }
    }

    /// What the tick asks of the caller.
    pub open spec fn report_of(&self, mode: GameMode, keys: Keys) -> MenuReport {
        MenuReport {
            main_menu: Self::calls_main_menu(mode, keys),
            click: if self.clicks(mode, keys) {
                Some(self.selected())
            } else {
                None
            },
            back: if self.backs(mode, keys) {
                Some(self.return_action)
            } else {
                None
            },
            mutation: if self.stage(mode, keys) == Stage::Through && self.moves(mode, keys)
                is None {
                self.mutation_after_click(mode, keys)
            } else {
                MenuMutation::Nothing
            },
        }
    }

    /// A menu over the entries given, with every latch set and no change
    /// under way.
    pub fn new(
        open: bool,
        selectable_items: Vec<Vec<OnClickEvent>>,
        cursor_pos: (usize, usize),
        cursor_movement_style: MenuMovement,
        return_action: OnClickEvent,
    ) -> (menu: MenuScreen)
        ensures
            menu.open == open,
            menu.selectable_items == selectable_items,
            menu.cursor_pos == cursor_pos,
            menu.cursor_movement_style == cursor_movement_style,
            menu.return_action == return_action,
            menu.mutation is Nothing,
            menu.input_cooldowns == (InputCooldowns {
                a: true,
                s: true,
                d: true,
                f: true,
                up: true,
                down: true,
                left: true,
                right: true,
            }),
    {
        MenuScreen {
            open,
            selectable_items,
            cursor_pos,
            cursor_movement_style,
            input_cooldowns: InputCooldowns::new(),
            return_action,
            mutation: MenuMutation::Nothing,
        }
    }

    /// What the entry under the cursor asks for.
    pub fn selected_event(&self) -> (event: OnClickEvent)
        ensures
            event == self.selected(),
    {
        if self.cursor_pos.0 < self.selectable_items.len() && self.cursor_pos.1
            < self.selectable_items[self.cursor_pos.0].len() {
            self.selectable_items[self.cursor_pos.0][self.cursor_pos.1]
        } else {
            OnClickEvent::Nothing
        }
    }

    /// Sends the cursor in `direction`: see `cursor_moved`.
    pub fn move_cursor(&mut self, direction: Direction)
        ensures
            final(self).cursor_pos == cursor_moved(
                old(self).cursor_movement_style,
                old(self).lengths(),
                old(self).cursor_pos,
                direction,
            ),
            final(self).open == old(self).open,
            final(self).selectable_items == old(self).selectable_items,
            final(self).cursor_movement_style == old(self).cursor_movement_style,
            final(self).input_cooldowns == old(self).input_cooldowns,
            final(self).return_action == old(self).return_action,
            final(self).mutation == old(self).mutation,
    {
        let pos = self.cursor_pos;
        let lists = self.selectable_items.len();
        match direction {
            Direction::Up => {
                if pos.1 > 0 {
                    match self.cursor_movement_style {
                        MenuMovement::ColumnOfRows => {
                            self.cursor_pos = (0, pos.1 - 1);
                        },
                        _ => {
                            self.cursor_pos.1 = pos.1 - 1;
                        },
                    }
                }
            },
            Direction::Down => {
                match self.cursor_movement_style {
                    MenuMovement::ColumnOfRows => {
                        if pos.1 < lists && pos.1 + 1 < lists {
                            self.cursor_pos = (0, pos.1 + 1);
                        }
                    },
                    _ => {
                        if pos.0 < lists && pos.1 < self.selectable_items[pos.0].len() && pos.1 + 1
                            < self.selectable_items[pos.0].len() {
                            self.cursor_pos.1 = pos.1 + 1;
                        }
                    },
                }
            },
            Direction::Left => {
                if pos.0 > 0 {
                    match self.cursor_movement_style {
                        MenuMovement::Grid => {
                            if pos.0 - 1 < lists && self.selectable_items[pos.0 - 1].len() >= pos.1 {
                                self.cursor_pos.0 = pos.0 - 1;
                            }
                        },
                        MenuMovement::ColumnOfRows => {
                            self.cursor_pos.0 = pos.0 - 1;
                        },
                        MenuMovement::RowOfColumns => {
                            self.cursor_pos = (pos.0 - 1, 0);
                        },
                    }
                }
            },
            Direction::Right => {
                match self.cursor_movement_style {
                    MenuMovement::Grid => {
                        if pos.0 < lists && pos.0 + 1 < lists && self.selectable_items[pos.0
                            + 1].len() >= pos.1 {
                            self.cursor_pos.0 = pos.0 + 1;
                        }
                    },
                    MenuMovement::ColumnOfRows => {
                        if pos.1 < lists && pos.0 < self.selectable_items[pos.1].len() && pos.0 + 1
                            < self.selectable_items[pos.1].len() {
                            self.cursor_pos.0 = pos.0 + 1;
                        }
                    },
                    MenuMovement::RowOfColumns => {
                        if pos.0 < lists && pos.0 + 1 < lists {
                            self.cursor_pos = (pos.0 + 1, 0);
                        }
                    },
                }
            },
        }
    }

    /// Looks at the key that chooses. Returns what was chosen, if anything.
    fn take_click(&mut self, keys: Keys) -> (click: Option<OnClickEvent>)
        ensures
            click == if fresh_press(keys.a, old(self).input_cooldowns.a) {
                Some(old(self).selected())
            } else {
                None::<OnClickEvent>
            },
            final(self).input_cooldowns == (InputCooldowns { a: keys.a, ..old(self).input_cooldowns }),
            final(self).mutation == match click {
                Some(OnClickEvent::MutateMenu(change)) => MenuMutation::DefaultMutation(change),
                Some(OnClickEvent::UseItemInMenu(targets, pos)) => MenuMutation::UseItemInMenu(
                    targets,
                    pos,
                ),
                _ => old(self).mutation,
            },
            final(self).open == (old(self).open && !(click matches Some(
                OnClickEvent::ActOnTarget(_, _),
            ))),
            final(self).cursor_pos == old(self).cursor_pos,
            final(self).selectable_items == old(self).selectable_items,
            final(self).cursor_movement_style == old(self).cursor_movement_style,
            final(self).return_action == old(self).return_action,
    {
        if take_press(keys.a, &mut self.input_cooldowns.a) {
            let event = self.selected_event();
            match event {
                OnClickEvent::ActOnTarget(_, _) => {
                    self.open = false;
                },
                OnClickEvent::MutateMenu(change) => {
                    self.mutation = MenuMutation::DefaultMutation(change);
                },
                OnClickEvent::UseItemInMenu(targets, item_cursor_pos) => {
                    self.mutation = MenuMutation::UseItemInMenu(targets, item_cursor_pos);
                },
                _ => {},
            }
            Some(event)
        } else {
            None
        }
    }

    /// Looks at the arrow keys in order and moves the cursor on the first
    /// fresh press. Says whether the cursor was sent anywhere.
    fn take_arrows(&mut self, keys: Keys) -> (sent: bool)
        ensures
            sent == direction_pressed(keys, old(self).input_cooldowns).is_some(),
            final(self).input_cooldowns == (InputCooldowns {
                a: old(self).input_cooldowns.a,
                s: old(self).input_cooldowns.s,
                ..latches_after(keys, old(self).input_cooldowns)
            }),
            final(self).cursor_pos == match direction_pressed(keys, old(self).input_cooldowns) {
                Some(direction) => cursor_moved(
                    old(self).cursor_movement_style,
                    old(self).lengths(),
                    old(self).cursor_pos,
                    direction,
                ),
                None => old(self).cursor_pos,
            },
            final(self).open == old(self).open,
            final(self).selectable_items == old(self).selectable_items,
            final(self).cursor_movement_style == old(self).cursor_movement_style,
            final(self).return_action == old(self).return_action,
            final(self).mutation == old(self).mutation,
    {
        if take_press(keys.up, &mut self.input_cooldowns.up) {
            self.move_cursor(Direction::Up);
            true
        } else if take_press(keys.down, &mut self.input_cooldowns.down) {
            self.move_cursor(Direction::Down);
            true
        } else if take_press(keys.left, &mut self.input_cooldowns.left) {
            self.move_cursor(Direction::Left);
            true
        } else if take_press(keys.right, &mut self.input_cooldowns.right) {
            self.move_cursor(Direction::Right);
            true
        } else {
            false
        }
    }

    /// Lets one tick pass with the keys as given.
    ///
    /// On the map, the menu key calls for the main menu and nothing else is
    /// looked at. A closed menu does nothing. An open one looks at its keys
    /// in order: a fresh press of `a` chooses the entry under the cursor, one
    /// of `s` backs out, one of an arrow moves the cursor. The tick ends
    /// where the menu is replaced by another; a tick on which the cursor was
    /// not sent anywhere carries the menu's change on.
    pub fn update(&mut self, mode: GameMode, keys: Keys) -> (report: MenuReport)
        ensures
            report == old(self).report_of(mode, keys),
            final(self).cursor_pos == old(self).cursor_after(mode, keys),
            final(self).input_cooldowns == old(self).cooldowns_after(mode, keys),
            final(self).mutation == if old(self).listens(mode, keys) {
                old(self).mutation_after_click(mode, keys)
            } else {
                old(self).mutation
            },
            final(self).open == (old(self).open && !(old(self).clicks(mode, keys) && old(
                self,
            ).selected() is ActOnTarget)),
            final(self).selectable_items == old(self).selectable_items,
            final(self).cursor_movement_style == old(self).cursor_movement_style,
            final(self).return_action == old(self).return_action,
    {
        let mut report = MenuReport {
            main_menu: false,
            click: None,
            back: None,
            mutation: MenuMutation::Nothing,
        };
        let on_map = match mode {
            GameMode::Overworld => true,
            _ => false,
        };
        if on_map && keys.f {
            report.main_menu = true;
            return report;
        }
        if !self.open {
            return report;
        }
        report.click = self.take_click(keys);
        let replaced = match report.click {
            Some(OnClickEvent::ToMenuScreen(_, _)) => true,
            Some(OnClickEvent::ToTargetSelection(_, _)) => true,
            _ => false,
        };
        if replaced {
            return report;
        }
        if take_press(keys.s, &mut self.input_cooldowns.s) {
            match self.return_action {
                OnClickEvent::ToMenuScreen(_, _) => {
                    report.back = Some(self.return_action);
                    return report;
                },
                OnClickEvent::Transition(_) => {
                    report.back = Some(self.return_action);
                },
                OnClickEvent::MenuTransition(_, _) => {
                    report.back = Some(self.return_action);
                },
                _ => {},
            }
        }
        if !self.take_arrows(keys) {
            report.mutation = self.mutation;
        }
        report
    }
}

} // verus!
