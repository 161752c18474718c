//! The battle: the enemy formation, the shared turn state and what a tick
//! does to them.

pub mod action;
pub mod animation;
pub mod atb;
pub mod enemy;
pub mod flee;
pub mod print_damage;
pub mod state;
pub mod steal;
pub mod sweep;
pub mod turn;

use crate::battle::animation::elapsed;
use crate::battle::enemy::{draw_enemy_rolls, Animation, Enemy, EnemyRolls};
use crate::battle::flee::{battle_after_flee, flee_action_with, party_after_flee};
use crate::battle::state::{draw_action_rolls, ActionRolls, StatusRolls};
use crate::battle::turn::{grant_turn, Turn};
use crate::dice::{roll, valid_roll};
use crate::menu::item::{BattleAction, OnClickEvent};
use crate::menu::notification::{slot_ticked, slot_view, tick_slot, Notification};
use crate::party::character::{Character, Sprite};
use crate::party::{Party, PartyEvents, PartyView};
use crate::GameMode;
use vstd::prelude::*;

verus! {

/// A battle.
///
/// `enemies` is the formation, column by column. `battle_over` says whether
/// the formation has been emptied and on which tick that was seen.
pub struct Battle {
    pub enemies: Vec<Vec<Enemy>>,
    pub enemies_start_draw_height: i32,
    pub active_turns: Vec<u8>,
    /// Zero if nobody holds the turn, else the id of the holder.
    pub current_turn: u8,
    pub notification: Option<Notification>,
    pub experience_gained: u32,
    pub battle_over: (bool, usize),
}

/// The battle as a value.
pub struct BattleView {
    pub roster: Seq<Seq<Enemy>>,
    pub start_height: i32,
    pub turn: Turn,
    pub experience_gained: u32,
    pub battle_over: (bool, usize),
}

impl View for Battle {
    type V = BattleView;

    open spec fn view(&self) -> BattleView {
        BattleView {
            roster: roster_of(self.enemies),
            start_height: self.enemies_start_draw_height,
            turn: Turn {
                token: self.current_turn,
                queue: self.active_turns@,
                banner: slot_view(self.notification),
            },
            experience_gained: self.experience_gained,
            battle_over: self.battle_over,
        }
    }
}

/// The formation as a value: its columns, each a sequence of enemies.
pub open spec fn roster_of(enemies: Vec<Vec<Enemy>>) -> Seq<Seq<Enemy>> {
    Seq::new(enemies@.len(), |i: int| enemies@[i]@)
}

/// Every enemy of the formation holds well-formed battle data.
pub open spec fn roster_wf(roster: Seq<Seq<Enemy>>) -> bool {
    forall|i: int, j: int|
        0 <= i < roster.len() && 0 <= j < roster[i].len() ==> (#[trigger] roster[i][j]).wf()
}

/// An enemy after the row `row` left its column: its stored row moves up by
/// one if it lay below that row.
pub open spec fn row_closed(enemy: Enemy, row: int) -> Enemy {
    if enemy.selection_pos.1 > row {
        Enemy {
            selection_pos: (enemy.selection_pos.0, (enemy.selection_pos.1 - 1) as usize),
            ..enemy
        }
    } else {
        enemy
    }
}

/// An enemy after the column `column` left the formation: its stored column
/// moves up by one if it lay behind that column.
pub open spec fn column_closed(enemy: Enemy, column: int) -> Enemy {
    if enemy.selection_pos.0 > column {
        Enemy {
            selection_pos: ((enemy.selection_pos.0 - 1) as usize, enemy.selection_pos.1),
            ..enemy
        }
    } else {
        enemy
    }
}

/// The formation after the enemy at `column` and `row` was taken out.
///
/// If the enemy has company in its column, only its row goes, and the
/// column's other enemies close the gap. If it stood alone, its column goes,
/// and the enemies of the whole formation close the gap. Where there is no
/// enemy at that place, nothing is taken out.
pub open spec fn removed(roster: Seq<Seq<Enemy>>, column: int, row: int) -> Seq<Seq<Enemy>> {
    if 0 <= column < roster.len() && 0 <= row < roster[column].len() {
        if roster[column].len() > 1 {
            roster.update(
                column,
                roster[column].remove(row).map_values(|e: Enemy| row_closed(e, row)),
            )
        } else {
            roster.remove(column).map_values(
                |c: Seq<Enemy>| c.map_values(|e: Enemy| column_closed(e, column)),
            )
        }
    } else {
        roster
    }
}

/// A formation and the experience its fallen have yielded so far.
pub struct Spoils {
    pub roster: Seq<Seq<Enemy>>,
    pub experience: u32,
}

/// `gained` more experience, stopping at the most that can be counted.
pub open spec fn experience_added(experience: u32, gained: u32) -> u32 {
    if experience + gained > u32::MAX {
        u32::MAX
    } else {
        (experience + gained) as u32
    }
}

/// The spoils after the enemy at `column` and `row`, if there is one and it
/// is dead, was taken out and its experience collected.
pub open spec fn collected(spoils: Spoils, column: int, row: int) -> Spoils {
    if 0 <= column < spoils.roster.len() && 0 <= row < spoils.roster[column].len()
        && spoils.roster[column][row].dead {
        Spoils {
            roster: removed(spoils.roster, column, row),
            experience: experience_added(
                spoils.experience,
                spoils.roster[column][row].state.experience,
            ),
        }
    } else {
        spoils
    }
}

/// The spoils after the dead of column `column` were collected from the
/// bottom of the column up to and including row `from`. Going upwards, each
/// removal leaves the rows still to be looked at where they are.
pub open spec fn column_swept(spoils: Spoils, column: int, from: int, rows: int) -> Spoils
    decreases rows - from,
{
    if from >= rows {
        spoils
    } else {
        collected(column_swept(spoils, column, from + 1, rows), column, from)
    }
}

/// The spoils after the dead of every column from the last up to and
/// including column `from` were collected.
pub open spec fn roster_swept(spoils: Spoils, from: int, columns: int) -> Spoils
    decreases columns - from,
{
    if from >= columns {
        spoils
    } else {
        let later = roster_swept(spoils, from + 1, columns);
        if from < later.roster.len() {
            column_swept(later, from, 0, later.roster[from].len() as int)
        } else {
            later
        }
    }
}

/// The spoils after all the dead were collected.
pub open spec fn swept(spoils: Spoils) -> Spoils {
    roster_swept(spoils, 0, spoils.roster.len() as int)
}

/// What the enemies' tick passes from one enemy to the next: the
/// formation, the party and the shared turn state.
pub struct Field {
    pub roster: Seq<Seq<Enemy>>,
    pub party: PartyView,
    pub turn: Turn,
}

/// There is a set of rolls for every enemy of the formation.
pub open spec fn rolls_fit(roster: Seq<Seq<Enemy>>, rolls: Seq<Seq<EnemyRolls>>) -> bool {
    &&& rolls.len() == roster.len()
    &&& forall|i: int| 0 <= i < roster.len() ==> (#[trigger] rolls[i]).len() == roster[i].len()
}

/// Every set of rolls of the table is valid.
pub open spec fn rolls_valid(rolls: Seq<Seq<EnemyRolls>>) -> bool {
    forall|i: int, j: int|
        0 <= i < rolls.len() && 0 <= j < rolls[i].len() ==> (#[trigger] rolls[i][j]).valid()
}

/// The table of rolls as a value.
pub open spec fn roster_rolls(rolls: Vec<Vec<EnemyRolls>>) -> Seq<Seq<EnemyRolls>> {
    Seq::new(rolls@.len(), |i: int| rolls@[i]@)
}

/// Whether the rolls leave at zero what the enemy cannot need on a tick that
/// starts with `token` holding the turn: the rolls for its decision, unless
/// the turn is its to take; the rolls for its action, unless the action is
/// about to reach its target.
pub open spec fn spares(enemy: Enemy, token: u8, rolls: EnemyRolls) -> bool {
    &&& !enemy.claims_turn(token) ==> rolls.act == 0 && rolls.target == 0
    &&& !(enemy.animation.0 is StartTurn && enemy.animation.1 == 1) ==> rolls.action
        == (ActionRolls { status: StatusRolls { dead: 0, poison: 0, sleep: 0 }, steal: 0 })
}

/// An enemy that has no hit points left but has not finished dying is moved
/// to the sentinel column, where it cannot be targeted.
pub open spec fn marked(enemy: Enemy) -> Enemy {
    if !enemy.dead && enemy.state.hp == 0 {
        Enemy { selection_pos: (0, enemy.selection_pos.1), ..enemy }
    } else {
        enemy
    }
}

/// The field after the first `n` enemies of column `column` had their tick,
/// from the top down, each seeing what the one before left.
pub open spec fn column_stepped(
    field: Field,
    column: int,
    rolls: Seq<EnemyRolls>,
    tick: usize,
    n: int,
) -> Field
    decreases n,
{
    if n <= 0 {
        field
    } else {
        let f = column_stepped(field, column, rolls, tick, n - 1);
        let enemy = f.roster[column][n - 1];
        Field {
            roster: f.roster.update(
                column,
                f.roster[column].update(
                    n - 1,
                    marked(enemy.after_update(f.party, tick, f.turn.token, rolls[n - 1])),
                ),
            ),
            party: enemy.party_after_update(f.party, tick, f.turn.token, rolls[n - 1]),
            turn: enemy.turn_after_update(f.party, f.turn, tick, rolls[n - 1]),
        }
    }
}

/// The field after the enemies of the first `n` columns had their tick,
/// column by column.
pub open spec fn roster_stepped(field: Field, rolls: Seq<Seq<EnemyRolls>>, tick: usize, n: int) -> Field
    decreases n,
{
    if n <= 0 {
        field
    } else {
        let f = roster_stepped(field, rolls, tick, n - 1);
        column_stepped(f, n - 1, rolls[n - 1], tick, f.roster[n - 1].len() as int)
    }
}

/// What the ticks of a column's first `n` enemies leave as they found it:
/// the shape of the formation, the enemies not yet reached, the size of the
/// inventory and everybody's well-formedness.
pub proof fn lemma_column_stepped(
    field: Field,
    column: int,
    rolls: Seq<EnemyRolls>,
    tick: usize,
    n: int,
)
    requires
        roster_wf(field.roster),
        field.party.wf(),
        0 <= column < field.roster.len(),
        0 <= n <= field.roster[column].len(),
        rolls.len() == field.roster[column].len(),
    ensures
        ({
            let f = column_stepped(field, column, rolls, tick, n);
            &&& roster_wf(f.roster)
            &&& f.party.wf()
            &&& f.party.inventory.len() == field.party.inventory.len()
            &&& f.roster.len() == field.roster.len()
            &&& forall|i: int|
                0 <= i < f.roster.len() ==> (#[trigger] f.roster[i]).len() == field.roster[i].len()
            &&& forall|i: int|
                0 <= i < f.roster.len() && i != column ==> (#[trigger] f.roster[i])
                    == field.roster[i]
            &&& forall|j: int|
                n <= j < f.roster[column].len() ==> (#[trigger] f.roster[column][j])
                    == field.roster[column][j]
        }),
    decreases n,
{
    if n > 0 {
        lemma_column_stepped(field, column, rolls, tick, n - 1);
        let f = column_stepped(field, column, rolls, tick, n - 1);
        let enemy = f.roster[column][n - 1];
        assert(enemy.wf());
        lemma_enemy_tick_keeps_wf(enemy, f.party, f.turn, tick, rolls[n - 1]);
    }
}

/// An enemy's tick keeps the enemy and the party well-formed and the
/// inventory at its size.
pub proof fn lemma_enemy_tick_keeps_wf(
    enemy: Enemy,
    party: PartyView,
    turn: Turn,
    tick: usize,
    rolls: EnemyRolls,
)
    requires
        enemy.wf(),
        party.wf(),
    ensures
        marked(enemy.after_update(party, tick, turn.token, rolls)).wf(),
        enemy.party_after_update(party, tick, turn.token, rolls).wf(),
        enemy.party_after_update(party, tick, turn.token, rolls).inventory.len()
            == party.inventory.len(),
{
    crate::battle::state::lemma_rules_keep_wf();
}

/// Height, in pixels, at which a formation whose columns are empty starts
/// to be drawn.
pub const BASE_DRAW_HEIGHT: i32 = 184;

/// Pixels the formation is raised by for each cell of its longest column.
pub const RAISE_PER_CELL: i32 = 16;

/// The column length from which on the draw height has reached the least
/// coordinate there is.
pub const LONGEST_DRAWN_COLUMN: u64 = 134_217_740;

/// The length of the first `n` enemies of a column: the sum of their sizes.
pub open spec fn column_length(column: Seq<Enemy>, n: int) -> int
    decreases n,
{
    if n <= 0 {
        0
    } else {
        column_length(column, n - 1) + column[n - 1].size
    }
}

/// The length of the longest of the first `n` columns.
pub open spec fn longest_column(roster: Seq<Seq<Enemy>>, n: int) -> int
    decreases n,
{
    if n <= 0 {
        0
    } else {
        let before = longest_column(roster, n - 1);
        let this = column_length(roster[n - 1], roster[n - 1].len() as int);
        if before < this {
            this
        } else {
            before
        }
    }
}

/// The height at which the formation starts to be drawn: the base height,
/// raised by `RAISE_PER_CELL` for each cell of the longest column, and no
/// less than the least coordinate.
pub open spec fn start_draw_height(roster: Seq<Seq<Enemy>>) -> i32 {
    let longest = longest_column(roster, roster.len() as int);
    if longest >= LONGEST_DRAWN_COLUMN {
        i32::MIN
    } else {
        (BASE_DRAW_HEIGHT - RAISE_PER_CELL * longest) as i32
    }
}

/// A member as a battle starts: one with hit points left stands ready.
pub open spec fn readied(member: Character) -> Character {
    if member.state.hp > 0 {
        Character { sprite: Sprite::StandRight, ..member }
    } else {
        member
    }
}

/// The rolls one tick of a battle can call for: those for the player's
/// command, the one for an attempt to flee, and a set for every enemy.
pub struct TickRolls {
    pub command: ActionRolls,
    pub flee: u32,
    pub enemies: Vec<Vec<EnemyRolls>>,
}

/// The rolls of a tick as a value.
pub struct TickRollsView {
    pub command: ActionRolls,
    pub flee: u32,
    pub enemies: Seq<Seq<EnemyRolls>>,
}

impl View for TickRolls {
    type V = TickRollsView;

    open spec fn view(&self) -> TickRollsView {
        TickRollsView {
            command: self.command,
            flee: self.flee,
            enemies: roster_rolls(self.enemies),
        }
    }
}

impl TickRollsView {
    /// There is a set of rolls for every enemy of `roster`.
    pub open spec fn fits(self, roster: Seq<Seq<Enemy>>) -> bool {
        rolls_fit(roster, self.enemies)
    }

    /// Every roll is valid.
    pub open spec fn valid(self) -> bool {
        self.command.valid() && valid_roll(self.flee) && rolls_valid(self.enemies)
    }
}

/// What a tick of the battle asks of the caller.
#[derive(Clone, Copy, Debug, PartialEq, Eq, Structural)]
pub struct BattleReport {
    /// What the party members' clocks ask for.
    pub party: PartyEvents,
    /// Whether the victory summary is due.
    pub summary: bool,
    /// Whether the party got away on this tick.
    pub away: bool,
}

impl BattleView {
    /// The battle and the party after the first half of a tick, which is
    /// the party's.
    ///
    /// Once the battle is won, the party has the tick of a won battle: it
    /// poses through the grace period and is then paid its experience.
    /// Until then: the turn is granted, the members have their tick in slot
    /// order, and the player's command, if `click` is one, is carried out.
    pub open spec fn after_party_phase(
        self,
        party: PartyView,
        click: OnClickEvent,
        tick: usize,
        rolls: TickRollsView,
    ) -> (BattleView, PartyView) {
        if self.battle_over.0 {
            let (celebrating, shown) = party.after_won_battle(
                elapsed(tick, self.battle_over.1),
                self.experience_gained,
            );
            (BattleView { experience_gained: shown, ..self }, celebrating)
        } else {
            let granted = self.turn.granted();
            let updated = party.after_update(granted, tick);
            let battle = BattleView { turn: party.turn_after(granted, tick, 4), ..self };
            match click {
                OnClickEvent::ActOnTarget(target_pos, action) => {
                    let (p, b) = updated.after_turn_action(
                        battle,
                        target_pos,
                        action,
                        tick,
                        rolls.command,
                    );
                    (b, p)
                },
                OnClickEvent::BattleAction(BattleAction::Flee) => (
                    battle_after_flee(battle, rolls.flee),
                    party_after_flee(updated, battle.roster, tick, rolls.flee),
                ),
                _ => (battle, updated),
            }
        }
    }

    /// What the first half of a tick asks of the caller.
    pub open spec fn report_of_party_phase(
        self,
        party: PartyView,
        click: OnClickEvent,
        tick: usize,
        rolls: TickRollsView,
    ) -> BattleReport {
        if self.battle_over.0 {
            BattleReport {
                party: quiet(),
                summary: elapsed(tick, self.battle_over.1) == crate::party::VICTORY_GRACE_TICKS,
                away: false,
            }
        } else {
            BattleReport {
                party: party.events_of_update(self.turn.granted(), tick),
                summary: false,
                away: click matches OnClickEvent::BattleAction(BattleAction::Flee)
                    && crate::battle::flee::gets_away(self.roster, rolls.flee),
            }
        }
    }

    /// The battle and the party after the second half of a tick, which is
    /// the enemies'.
    ///
    /// Every enemy has its tick, the dead are taken out and their
    /// experience collected, an emptied formation latches the victory, and
    /// the banner loses a tick.
    pub open spec fn after_enemy_phase(
        self,
        party: PartyView,
        tick: usize,
        rolls: Seq<Seq<EnemyRolls>>,
    ) -> (BattleView, PartyView) {
        let field = roster_stepped(
            Field { roster: self.roster, party, turn: self.turn },
            rolls,
            tick,
            self.roster.len() as int,
        );
        let spoils = swept(Spoils { roster: field.roster, experience: self.experience_gained });
        (
            BattleView {
                roster: spoils.roster,
                start_height: self.start_height,
                turn: Turn { banner: slot_ticked(field.turn.banner), ..field.turn },
                experience_gained: spoils.experience,
                battle_over: Battle::victory_latched(spoils.roster, self.battle_over, tick),
            },
            field.party,
        )
    }

    /// The battle and the party one tick later: the party's half of the
    /// tick, then the enemies'. Outside battle mode nothing moves.
    pub open spec fn after_tick(
        self,
        party: PartyView,
        mode: GameMode,
        click: OnClickEvent,
        tick: usize,
        rolls: TickRollsView,
    ) -> (BattleView, PartyView) {
        if mode == GameMode::Battle {
            let (battle, members) = self.after_party_phase(party, click, tick, rolls);
            battle.after_enemy_phase(members, tick, rolls.enemies)
        } else {
            (self, party)
        }
    }

    /// What the tick asks of the caller.
    pub open spec fn report_of_tick(
        self,
        party: PartyView,
        mode: GameMode,
        click: OnClickEvent,
        tick: usize,
        rolls: TickRollsView,
    ) -> BattleReport {
        if mode == GameMode::Battle {
            self.report_of_party_phase(party, click, tick, rolls)
        } else {
            BattleReport { party: quiet(), summary: false, away: false }
        }
    }
}

/// Tests `roster_wf`, for callers that put a formation together by hand.
pub fn roster_is_well_formed(enemies: &Vec<Vec<Enemy>>) -> (ok: bool)
    ensures
        ok == roster_wf(roster_of(*enemies)),
{
    let ghost roster = roster_of(*enemies);
    let mut i: usize = 0;
    while i < enemies.len()
        invariant
            0 <= i <= enemies.len(),
            roster == roster_of(*enemies),
            forall|c: int, k: int|
                0 <= c < i && 0 <= k < roster[c].len() ==> (#[trigger] roster[c][k]).wf(),
        decreases enemies.len() - i,
    {
        let mut j: usize = 0;
        while j < enemies[i].len()
            invariant
                0 <= j <= enemies[i as int].len(),
                i < enemies.len(),
                roster == roster_of(*enemies),
                forall|k: int| 0 <= k < j ==> (#[trigger] roster[i as int][k]).wf(),
            decreases enemies[i as int].len() - j,
        {
            if !enemies[i][j].state.is_well_formed() {
                assert(!roster[i as int][j as int].wf());
                return false;
            }
            j = j + 1;
        }
        i = i + 1;
    }
    true
}

/// Makes a member stand ready, if it has hit points left.
fn make_ready(member: &mut Character)
    ensures
        *final(member) == readied(*old(member)),
        old(member).wf() ==> final(member).wf(),
{
    if member.state.hp > 0 {
        member.sprite = Sprite::StandRight;
    }
}

/// The report of a party none of whose members asks for anything.
pub open spec fn quiet() -> PartyEvents {
    PartyEvents {
        first: crate::party::character::CharacterEvent::Nothing,
        second: crate::party::character::CharacterEvent::Nothing,
        third: crate::party::character::CharacterEvent::Nothing,
        fourth: crate::party::character::CharacterEvent::Nothing,
    }
}

/// Whether a tick, decided by `rolls`, led from the one battle and party to
/// the other.
pub open spec fn tick_resolved(
    battle_before: BattleView,
    battle_after: BattleView,
    party_before: PartyView,
    party_after: PartyView,
    mode: GameMode,
    click: OnClickEvent,
    tick: usize,
    rolls: TickRollsView,
) -> bool {
    (battle_after, party_after) == battle_before.after_tick(party_before, mode, click, tick, rolls)
}

impl Battle {
    pub open spec fn wf(&self) -> bool {
        roster_wf(self@.roster)
    }

    /// A battle against the formation `enemies`. Nobody holds the turn, the
    /// queue and the banner are empty, and the party's living stand ready.
    pub fn new(enemies: Vec<Vec<Enemy>>, party: &mut Party) -> (battle: Battle)
        requires
            roster_wf(roster_of(enemies)),
        ensures
            battle@ == (BattleView {
                roster: roster_of(enemies),
                start_height: start_draw_height(roster_of(enemies)),
                turn: Turn { token: 0, queue: Seq::empty(), banner: None },
                experience_gained: 0,
                battle_over: (false, 0),
            }),
            battle.wf(),
            final(party)@ == (PartyView {
                first: readied(old(party).first),
                second: readied(old(party).second),
                third: readied(old(party).third),
                fourth: readied(old(party).fourth),
                inventory: old(party).inventory@,
            }),
            old(party).wf() ==> final(party).wf(),
    {
        make_ready(&mut party.first);
        make_ready(&mut party.second);
        make_ready(&mut party.third);
        make_ready(&mut party.fourth);
        let ghost roster = roster_of(enemies);
        let mut longest: u64 = 0;
        let mut i: usize = 0;
        while i < enemies.len()
            invariant
                0 <= i <= enemies.len(),
                roster == roster_of(enemies),
                longest <= LONGEST_DRAWN_COLUMN,
                longest == if longest_column(roster, i as int) >= LONGEST_DRAWN_COLUMN {
                    LONGEST_DRAWN_COLUMN as int
                } else {
                    longest_column(roster, i as int)
                },
            decreases enemies.len() - i,
        {
            let mut length: u64 = 0;
            let mut j: usize = 0;
            while j < enemies[i].len()
                invariant
                    0 <= j <= enemies[i as int].len(),
                    i < enemies.len(),
                    roster == roster_of(enemies),
                    length <= LONGEST_DRAWN_COLUMN,
                    length == if column_length(roster[i as int], j as int)
                        >= LONGEST_DRAWN_COLUMN {
                        LONGEST_DRAWN_COLUMN as int
                    } else {
                        column_length(roster[i as int], j as int)
                    },
                    column_length(roster[i as int], j as int) >= 0,
                decreases enemies[i as int].len() - j,
            {
                let size = enemies[i][j].size as u64;
                length = if length + size >= LONGEST_DRAWN_COLUMN {
                    LONGEST_DRAWN_COLUMN
                } else {
                    length + size
                };
                j = j + 1;
            }
            if longest < length {
                longest = length;
            }
            i = i + 1;
        }
        let enemies_start_draw_height = if longest >= LONGEST_DRAWN_COLUMN {
            i32::MIN
        } else {
            (BASE_DRAW_HEIGHT as i64 - RAISE_PER_CELL as i64 * longest as i64) as i32
        };
        Battle {
            enemies,
            enemies_start_draw_height,
            active_turns: Vec::new(),
            current_turn: 0,
            notification: None,
            experience_gained: 0,
            battle_over: (false, 0),
        }
    }

    /// The party's half of a tick, with the rolls given: see
    /// `BattleView::after_party_phase`.
    pub fn party_phase_with(
        &mut self,
        party: &mut Party,
        click: OnClickEvent,
        tick: usize,
        command: ActionRolls,
        flee: u32,
    ) -> (report: BattleReport)
        requires
            old(self).wf(),
            old(party).wf(),
        ensures
            forall|enemies: Seq<Seq<EnemyRolls>>|
                (final(self)@, final(party)@) == #[trigger] old(self)@.after_party_phase(
                    old(party)@,
                    click,
                    tick,
                    TickRollsView { command, flee, enemies },
                ),
            forall|enemies: Seq<Seq<EnemyRolls>>|
                report == #[trigger] old(self)@.report_of_party_phase(
                    old(party)@,
                    click,
                    tick,
                    TickRollsView { command, flee, enemies },
                ),
            final(self).wf(),
            final(party).wf(),
            final(self)@.roster.len() == old(self)@.roster.len(),
            forall|i: int|
                0 <= i < old(self)@.roster.len() ==> (#[trigger] final(self)@.roster[i]).len() == old(
                    self,
                )@.roster[i].len(),
    {
        let mut report = BattleReport {
            party: PartyEvents {
                first: crate::party::character::CharacterEvent::Nothing,
                second: crate::party::character::CharacterEvent::Nothing,
                third: crate::party::character::CharacterEvent::Nothing,
                fourth: crate::party::character::CharacterEvent::Nothing,
            },
            summary: false,
            away: false,
        };
        if self.battle_over.0 {
            report.summary = party.won_battle(tick, self.battle_over.1, &mut self.experience_gained);
        } else {
            grant_turn(&mut self.current_turn, &mut self.active_turns);
            report.party = party.update(
                tick,
                &mut self.active_turns,
                &mut self.current_turn,
                &mut self.notification,
            );
            match click {
                OnClickEvent::ActOnTarget(target_pos, action_parameters) => {
                    party.battle_turn_action_with(self, target_pos, &action_parameters, tick, command);
                },
                OnClickEvent::BattleAction(BattleAction::Flee) => {
                    report.away = flee_action_with(party, self, tick, flee);
                },
                _ => {},
            }
        }
        report
    }

    /// The enemies' half of a tick, with the rolls given: see
    /// `BattleView::after_enemy_phase`.
    pub fn enemy_phase_with(&mut self, party: &mut Party, tick: usize, rolls: &Vec<Vec<EnemyRolls>>)
        requires
            old(self).wf(),
            old(party).wf(),
            rolls_fit(old(self)@.roster, roster_rolls(*rolls)),
        ensures
            (final(self)@, final(party)@) == old(self)@.after_enemy_phase(
                old(party)@,
                tick,
                roster_rolls(*rolls),
            ),
            final(self).wf(),
            final(party).wf(),
    {
        self.update_enemies_with(party, tick, rolls);
        self.sweep();
        self.detect_victory(tick);
        tick_slot(&mut self.notification);
    }

    /// Lets one tick pass, with the rolls given: see
    /// `BattleView::after_tick`. `click` is what the player chose in the
    /// battle menu on this tick, `tick` the number of the tick.
    pub fn update_with(
        &mut self,
        mode: &GameMode,
        party: &mut Party,
        click: OnClickEvent,
        tick: usize,
        rolls: &TickRolls,
    ) -> (report: BattleReport)
        requires
            old(self).wf(),
            old(party).wf(),
            rolls@.fits(old(self)@.roster),
        ensures
            (final(self)@, final(party)@) == old(self)@.after_tick(
                old(party)@,
                *mode,
                click,
                tick,
                rolls@,
            ),
            report == old(self)@.report_of_tick(old(party)@, *mode, click, tick, rolls@),
            final(self).wf(),
            final(party).wf(),
    {
        match mode {
            GameMode::Battle => {
                let report = self.party_phase_with(party, click, tick, rolls.command, rolls.flee);
                assert(rolls@ == (TickRollsView {
                    command: rolls.command,
                    flee: rolls.flee,
                    enemies: rolls@.enemies,
                }));
                self.enemy_phase_with(party, tick, &rolls.enemies);
                report
            },
            _ => BattleReport {
                party: PartyEvents {
                    first: crate::party::character::CharacterEvent::Nothing,
                    second: crate::party::character::CharacterEvent::Nothing,
                    third: crate::party::character::CharacterEvent::Nothing,
                    fourth: crate::party::character::CharacterEvent::Nothing,
                },
                summary: false,
                away: false,
            },
        }
    }

    /// Draws a set of rolls for every enemy of the formation. An enemy gets
    /// the rolls for its decision only if the turn is its to take, and the
    /// rolls for its action only if the action is about to reach its
    /// target; the rolls it cannot need are left at zero.
    pub fn draw_enemy_table(&self) -> (table: Vec<Vec<EnemyRolls>>)
        ensures
            rolls_fit(self@.roster, roster_rolls(table)),
            rolls_valid(roster_rolls(table)),
            forall|i: int, j: int|
                0 <= i < self@.roster.len() && 0 <= j < self@.roster[i].len() ==> spares(
                    self@.roster[i][j],
                    self.current_turn,
                    #[trigger] roster_rolls(table)[i][j],
                ),
    {
        let mut table: Vec<Vec<EnemyRolls>> = Vec::new();
        let mut i: usize = 0;
        while i < self.enemies.len()
            invariant
                0 <= i <= self.enemies.len(),
                table@.len() == i,
                forall|c: int| 0 <= c < i ==> (#[trigger] table@[c])@.len() == self.enemies@[c]@.len(),
                forall|c: int, k: int|
                    0 <= c < i && 0 <= k < table@[c]@.len() ==> (#[trigger] table@[c]@[k]).valid()
                        && spares(self.enemies@[c]@[k], self.current_turn, table@[c]@[k]),
            decreases self.enemies.len() - i,
        {
            let mut column: Vec<EnemyRolls> = Vec::new();
            let mut j: usize = 0;
            while j < self.enemies[i].len()
                invariant
                    0 <= j <= self.enemies@[i as int]@.len(),
                    i < self.enemies.len(),
                    column@.len() == j,
                    forall|k: int|
                        0 <= k < j ==> (#[trigger] column@[k]).valid() && spares(
                            self.enemies@[i as int]@[k],
                            self.current_turn,
                            column@[k],
                        ),
                decreases self.enemies@[i as int]@.len() - j,
            {
                let enemy = &self.enemies[i][j];
                let decides = self.current_turn == enemy.state.id && !enemy.turn_active;
                let carries = match enemy.animation.0 {
                    Animation::StartTurn(_, _) => true,
                    _ => false,
                };
                column.push(draw_enemy_rolls(decides, carries && enemy.animation.1 == 1));
                j = j + 1;
            }
            table.push(column);
            i = i + 1;
        }
        table
    }

    /// Lets one tick pass. Whatever the tick leaves to chance is decided by
    /// fresh rolls, so the outcome is that of `update_with` for some rolls.
    pub fn update(
        &mut self,
        mode: &GameMode,
        party: &mut Party,
        click: OnClickEvent,
        tick: usize,
    ) -> (report: BattleReport)
        requires
            old(self).wf(),
            old(party).wf(),
        ensures
            exists|rolls: TickRollsView|
                rolls.fits(old(self)@.roster) && rolls.valid() && #[trigger] tick_resolved(
                    old(self)@,
                    final(self)@,
                    old(party)@,
                    final(party)@,
                    *mode,
                    click,
                    tick,
                    rolls,
                ) && report == old(self)@.report_of_tick(old(party)@, *mode, click, tick, rolls),
            final(self).wf(),
            final(party).wf(),
    {
        match mode {
            GameMode::Battle => {
                let command = match click {
                    OnClickEvent::ActOnTarget(_, _) => draw_action_rolls(),
                    _ => ActionRolls { status: StatusRolls { dead: 0, poison: 0, sleep: 0 }, steal: 0 },
                };
                let flee = match click {
                    OnClickEvent::BattleAction(_) => roll(),
                    _ => 0,
                };
                let report = self.party_phase_with(party, click, tick, command, flee);
                let table = self.draw_enemy_table();
                let ghost rolls = TickRollsView { command, flee, enemies: roster_rolls(table) };
                assert(rolls_fit(old(self)@.roster, rolls.enemies));
                self.enemy_phase_with(party, tick, &table);
                assert(tick_resolved(
                    old(self)@,
                    self@,
                    old(party)@,
                    party@,
                    *mode,
                    click,
                    tick,
                    rolls,
                ));
                report
            },
            _ => {
                let ghost rolls = TickRollsView {
                    command: ActionRolls {
                        status: StatusRolls { dead: 0, poison: 0, sleep: 0 },
                        steal: 0,
                    },
                    flee: 0,
                    enemies: Seq::new(
                        self@.roster.len(),
                        |i: int|
                            Seq::new(
                                self@.roster[i].len(),
                                |j: int|
                                    EnemyRolls {
                                        act: 0,
                                        target: 0,
                                        action: ActionRolls {
                                            status: StatusRolls { dead: 0, poison: 0, sleep: 0 },
                                            steal: 0,
                                        },
                                    },
                            ),
                    ),
                };
                assert(rolls.fits(self@.roster) && rolls.valid());
                assert(tick_resolved(self@, self@, party@, party@, *mode, click, tick, rolls));
                BattleReport {
                    party: PartyEvents {
                        first: crate::party::character::CharacterEvent::Nothing,
                        second: crate::party::character::CharacterEvent::Nothing,
                        third: crate::party::character::CharacterEvent::Nothing,
                        fourth: crate::party::character::CharacterEvent::Nothing,
                    },
                    summary: false,
                    away: false,
                }
            },
        }
    }

    /// Tests `wf`, for callers that built or changed a battle by hand.
    pub fn is_well_formed(&self) -> (ok: bool)
        ensures
            ok == self.wf(),
    {
        roster_is_well_formed(&self.enemies)
    }

    /// The field the enemies' tick works on.
    pub open spec fn field(&self, party: &Party) -> Field {
        Field { roster: self@.roster, party: party@, turn: self@.turn }
    }

    /// Gives every enemy its tick, column by column and from the top of each
    /// column down, with the rolls given: see `roster_stepped`. An enemy
    /// that is left without hit points but has not finished dying is moved
    /// to the sentinel column.
    pub fn update_enemies_with(&mut self, party: &mut Party, tick: usize, rolls: &Vec<Vec<EnemyRolls>>)
        requires
            old(self).wf(),
            old(party).wf(),
            rolls_fit(old(self)@.roster, roster_rolls(*rolls)),
        ensures
            final(self).field(final(party)) == roster_stepped(
                old(self).field(old(party)),
                roster_rolls(*rolls),
                tick,
                old(self)@.roster.len() as int,
            ),
            final(self)@.start_height == old(self)@.start_height,
            final(self)@.experience_gained == old(self)@.experience_gained,
            final(self)@.battle_over == old(self)@.battle_over,
            final(self).wf(),
            final(party).wf(),
            final(party).inventory@.len() == old(party).inventory@.len(),
            final(self)@.roster.len() == old(self)@.roster.len(),
            forall|i: int|
                0 <= i < old(self)@.roster.len() ==> (#[trigger] final(self)@.roster[i]).len() == old(
                    self,
                )@.roster[i].len(),
    {
        let ghost start = self.field(party);
        let ghost table = roster_rolls(*rolls);
        let columns = self.enemies.len();
        let mut i: usize = 0;
        while i < columns
            invariant
                0 <= i <= columns,
                columns == self.enemies.len(),
                columns == start.roster.len(),
                table == roster_rolls(*rolls),
                rolls_fit(start.roster, table),
                self.field(party) == roster_stepped(start, table, tick, i as int),
                roster_wf(self@.roster),
                party.wf(),
                party.inventory@.len() == start.party.inventory.len(),
                forall|c: int|
                    0 <= c < columns ==> (#[trigger] self@.roster[c]).len() == start.roster[c].len(),
                self.enemies_start_draw_height == old(self).enemies_start_draw_height,
                self.experience_gained == old(self).experience_gained,
                self.battle_over == old(self).battle_over,
            decreases columns - i,
        {
            let ghost column_start = self.field(party);
            let count = self.enemies[i].len();
            assert(count == self@.roster[i as int].len());
            let mut j: usize = 0;
            while j < count
                invariant
                    0 <= j <= count,
                    i < columns,
                    columns == self.enemies.len(),
                    columns == start.roster.len(),
                    columns == column_start.roster.len(),
                    count == column_start.roster[i as int].len(),
                    count == start.roster[i as int].len(),
                    table == roster_rolls(*rolls),
                    rolls_fit(start.roster, table),
                    roster_wf(column_start.roster),
                    column_start.party.wf(),
                    column_start.party.inventory.len() == start.party.inventory.len(),
                    self.field(party) == column_stepped(
                        column_start,
                        i as int,
                        table[i as int],
                        tick,
                        j as int,
                    ),
                    forall|c: int|
                        0 <= c < columns ==> (#[trigger] column_start.roster[c]).len()
                            == start.roster[c].len(),
                    self.enemies_start_draw_height == old(self).enemies_start_draw_height,
                    self.experience_gained == old(self).experience_gained,
                    self.battle_over == old(self).battle_over,
                decreases count - j,
            {
                proof {
                    lemma_column_stepped(column_start, i as int, table[i as int], tick, j as int);
                }
                let ghost f = self.field(party);
                let ghost enemy = f.roster[i as int][j as int];
                assert(enemy.wf());
                let enemy_rolls = rolls[i][j];
                self.enemies[i][j].update_with(
                    party,
                    &mut self.active_turns,
                    &mut self.current_turn,
                    &mut self.notification,
                    tick,
                    enemy_rolls,
                );
                let ghost updated = enemy.after_update(f.party, tick, f.turn.token, enemy_rolls);
                if !self.enemies[i][j].dead && self.enemies[i][j].state.hp == 0 {
                    self.enemies[i][j].selection_pos.0 = 0;
                }
                assert(self@.roster[i as int] =~= f.roster[i as int].update(
                    j as int,
                    marked(updated),
                ));
                assert(self@.roster =~= f.roster.update(
                    i as int,
                    f.roster[i as int].update(j as int, marked(updated)),
                ));
                j = j + 1;
            }
            proof {
                lemma_column_stepped(column_start, i as int, table[i as int], tick, count as int);
            }
            i = i + 1;
        }
    }

    /// The formation and the experience gained so far.
    pub open spec fn spoils(&self) -> Spoils {
        Spoils { roster: self@.roster, experience: self@.experience_gained }
    }

    /// Takes every dead enemy out of the formation and collects its
    /// experience: see `swept`. The formation is gone through once, from the
    /// last enemy to the first, so that no removal moves an enemy that is
    /// still to be looked at.
    pub fn sweep(&mut self)
        requires
            old(self).wf(),
        ensures
            final(self).spoils() == swept(old(self).spoils()),
            final(self)@.start_height == old(self)@.start_height,
            final(self)@.turn == old(self)@.turn,
            final(self)@.battle_over == old(self)@.battle_over,
            final(self).wf(),
    {
        let ghost start = self.spoils();
        let columns = self.enemies.len();
        let mut i: usize = columns;
        while i > 0
            invariant
                0 <= i <= columns,
                columns == start.roster.len(),
                self.spoils() == roster_swept(start, i as int, columns as int),
                self.wf(),
                self@.start_height == old(self)@.start_height,
                self@.turn == old(self)@.turn,
                self@.battle_over == old(self)@.battle_over,
            decreases i,
        {
            i = i - 1;
            if i < self.enemies.len() {
                let ghost later = self.spoils();
                let rows = self.enemies[i].len();
                let mut j: usize = rows;
                while j > 0
                    invariant
                        0 <= j <= rows,
                        self.spoils() == column_swept(later, i as int, j as int, rows as int),
                        self.wf(),
                        self@.start_height == old(self)@.start_height,
                        self@.turn == old(self)@.turn,
                        self@.battle_over == old(self)@.battle_over,
                    decreases j,
                {
                    j = j - 1;
                    let ghost now = self.spoils();
                    if i < self.enemies.len() && j < self.enemies[i].len() && self.enemies[i][j].dead {
                        let gained = self.enemies[i][j].state.experience;
                        self.experience_gained = if gained > u32::MAX - self.experience_gained {
                            u32::MAX
                        } else {
                            self.experience_gained + gained
                        };
                        self.remove_enemy(i, j);
                    }
                    assert(self.spoils() == collected(now, i as int, j as int));
                }
            }
        }
    }

    /// Sees whether the battle is won: the first tick on which the formation
    /// is found empty is latched, with its number.
    pub fn detect_victory(&mut self, tick: usize)
        ensures
            final(self)@ == (BattleView {
                battle_over: Self::victory_latched(
                    old(self)@.roster,
                    old(self)@.battle_over,
                    tick,
                ),
                ..old(self)@
            }),
            final(self).wf() == old(self).wf(),
    {
        if self.enemies.len() == 0 && !self.battle_over.0 {
            self.battle_over = (true, tick);
        }
    }

    /// The victory latch after a look at the formation on `tick`.
    pub open spec fn victory_latched(
        roster: Seq<Seq<Enemy>>,
        battle_over: (bool, usize),
        tick: usize,
    ) -> (bool, usize) {
        if roster.len() == 0 && !battle_over.0 {
            (true, tick)
        } else {
            battle_over
        }
    }

    /// Takes the enemy at `column` and `row` out of the formation: see
    /// `removed`.
    pub fn remove_enemy(&mut self, column: usize, row: usize)
        ensures
            final(self)@ == (BattleView {
                roster: removed(old(self)@.roster, column as int, row as int),
                ..old(self)@
            }),
            old(self).wf() ==> final(self).wf(),
    {
        let ghost before = self@.roster;
        if column < self.enemies.len() && row < self.enemies[column].len() {
            if self.enemies[column].len() > 1 {
                self.enemies[column].remove(row);
                let ghost gone = before[column as int].remove(row as int);
                let count = self.enemies[column].len();
                let mut j: usize = 0;
                while j < count
                    invariant
                        0 <= j <= count,
                        column < self.enemies.len(),
                        self.enemies.len() == before.len(),
                        count == self.enemies[column as int].len(),
                        count == gone.len(),
                        forall|i: int|
                            0 <= i < before.len() && i != column ==> (#[trigger] self.enemies@[i])@
                                == before[i],
                        forall|k: int|
                            0 <= k < j ==> (#[trigger] self.enemies@[column as int]@[k])
                                == row_closed(gone[k], row as int),
                        forall|k: int|
                            j <= k < count ==> (#[trigger] self.enemies@[column as int]@[k])
                                == gone[k],
                        self.enemies_start_draw_height == old(self).enemies_start_draw_height,
                        self.active_turns == old(self).active_turns,
                        self.current_turn == old(self).current_turn,
                        self.notification == old(self).notification,
                        self.experience_gained == old(self).experience_gained,
                        self.battle_over == old(self).battle_over,
                    decreases count - j,
                {
                    if self.enemies[column][j].selection_pos.1 > row {
                        let moved = self.enemies[column][j].selection_pos.1 - 1;
                        self.enemies[column][j].selection_pos.1 = moved;
                    }
                    j = j + 1;
                }
                assert(self.enemies@[column as int]@ =~= gone.map_values(
                    |e: Enemy| row_closed(e, row as int),
                ));
                assert(roster_of(self.enemies) =~= removed(before, column as int, row as int));
            } else {
                self.enemies.remove(column);
                let ghost gone = before.remove(column as int);
                let columns = self.enemies.len();
                let mut i: usize = 0;
                while i < columns
                    invariant
                        0 <= i <= columns,
                        columns == self.enemies.len(),
                        columns == gone.len(),
                        forall|c: int|
                            0 <= c < i ==> (#[trigger] self.enemies@[c])@ == gone[c].map_values(
                                |e: Enemy| column_closed(e, column as int),
                            ),
                        forall|c: int| i <= c < columns ==> (#[trigger] self.enemies@[c])@ == gone[c],
                        self.enemies_start_draw_height == old(self).enemies_start_draw_height,
                        self.active_turns == old(self).active_turns,
                        self.current_turn == old(self).current_turn,
                        self.notification == old(self).notification,
                        self.experience_gained == old(self).experience_gained,
                        self.battle_over == old(self).battle_over,
                    decreases columns - i,
                {
                    let count = self.enemies[i].len();
                    let mut j: usize = 0;
                    while j < count
                        invariant
                            0 <= j <= count,
                            i < columns,
                            columns == self.enemies.len(),
                            columns == gone.len(),
                            count == self.enemies[i as int].len(),
                            count == gone[i as int].len(),
                            forall|c: int|
                                0 <= c < i ==> (#[trigger] self.enemies@[c])@
                                    == gone[c].map_values(
                                    |e: Enemy| column_closed(e, column as int),
                                ),
                            forall|c: int|
                                i < c < columns ==> (#[trigger] self.enemies@[c])@ == gone[c],
                            forall|k: int|
                                0 <= k < j ==> (#[trigger] self.enemies@[i as int]@[k])
                                    == column_closed(gone[i as int][k], column as int),
                            forall|k: int|
                                j <= k < count ==> (#[trigger] self.enemies@[i as int]@[k])
                                    == gone[i as int][k],
                            self.enemies_start_draw_height == old(self).enemies_start_draw_height,
                            self.active_turns == old(self).active_turns,
                            self.current_turn == old(self).current_turn,
                            self.notification == old(self).notification,
                            self.experience_gained == old(self).experience_gained,
                            self.battle_over == old(self).battle_over,
                        decreases count - j,
                    {
                        if self.enemies[i][j].selection_pos.0 > column {
                            let moved = self.enemies[i][j].selection_pos.0 - 1;
                            self.enemies[i][j].selection_pos.0 = moved;
                        }
                        j = j + 1;
                    }
                    assert(self.enemies@[i as int]@ =~= gone[i as int].map_values(
                        |e: Enemy| column_closed(e, column as int),
                    ));
                    i = i + 1;
                }
                assert(roster_of(self.enemies) =~= removed(before, column as int, row as int));
            }
        }
    }
}

} // verus!
