//! What the sweep of the dead comes to.
//!
//! The sweep is defined as a run of single removals, from the last enemy of
//! the formation to the first. This module proves what that run amounts to:
//! once it is through, no dead enemy is left in the formation, and whoever
//! is left is as it was, but for its place.

use crate::battle::enemy::Enemy;
use crate::battle::{collected, column_swept, removed, roster_swept, swept, Spoils};
use vstd::prelude::*;

verus! {

/// Whether two enemies are the same but for their place in the formation.
pub open spec fn alike(a: Enemy, b: Enemy) -> bool {
    a == (Enemy { selection_pos: a.selection_pos, ..b })
}

/// Whether two columns hold the same enemies, in order, but for their places.
pub open spec fn columns_alike(a: Seq<Enemy>, b: Seq<Enemy>) -> bool {
    a.len() == b.len() && forall|k: int| 0 <= k < a.len() ==> alike(#[trigger] a[k], b[k])
}

/// Whether none of a column's enemies from row `from` on is dead.
pub open spec fn none_dead(column: Seq<Enemy>, from: int) -> bool {
    forall|k: int| from <= k < column.len() ==> !(#[trigger] column[k]).dead
}

/// Whether a formation holds no dead enemy from column `from` on.
pub open spec fn no_dead_from(roster: Seq<Seq<Enemy>>, from: int) -> bool {
    forall|i: int| from <= i < roster.len() ==> none_dead(#[trigger] roster[i], 0)
}

/// Whether the formation `after` is `before` with its column `column` cut
/// out: the columns before it are alike, and each column from it on is like
/// the one that stood one further back.
pub open spec fn column_cut(after: Seq<Seq<Enemy>>, before: Seq<Seq<Enemy>>, column: int) -> bool {
    &&& after.len() + 1 == before.len()
    &&& forall|i: int| 0 <= i < column ==> columns_alike(#[trigger] after[i], before[i])
    &&& forall|i: int| column <= i < after.len() ==> columns_alike(#[trigger] after[i], before[i + 1])
}

/// Whether the formation `after` is `before` with the dead of column
/// `column` from row `from` on taken out, the column itself staying: every
/// other column is untouched, the rows before `from` are alike, and no row
/// from `from` on is dead.
pub open spec fn column_thinned(
    after: Seq<Seq<Enemy>>,
    before: Seq<Seq<Enemy>>,
    column: int,
    from: int,
) -> bool {
    &&& after.len() == before.len()
    &&& forall|i: int| 0 <= i < after.len() && i != column ==> #[trigger] after[i] == before[i]
    &&& from <= after[column].len() <= before[column].len()
    &&& forall|k: int| 0 <= k < from ==> alike(#[trigger] after[column][k], before[column][k])
    &&& none_dead(after[column], from)
}

/// What a single removal leaves: a column that keeps company loses the one
/// row, and a column that does not is cut out.
pub proof fn lemma_removed_shape(roster: Seq<Seq<Enemy>>, column: int, row: int)
    requires
        0 <= column < roster.len(),
        0 <= row < roster[column].len(),
    ensures
        roster[column].len() > 1 ==> ({
            let after = removed(roster, column, row);
            &&& after.len() == roster.len()
            &&& forall|i: int| 0 <= i < after.len() && i != column ==> #[trigger] after[i] == roster[i]
            &&& after[column].len() + 1 == roster[column].len()
            &&& forall|k: int| 0 <= k < row ==> alike(#[trigger] after[column][k], roster[column][k])
            &&& forall|k: int|
                row <= k < after[column].len() ==> alike(
                    #[trigger] after[column][k],
                    roster[column][k + 1],
                )
        }),
        roster[column].len() == 1 ==> column_cut(removed(roster, column, row), roster, column),
{
    let after = removed(roster, column, row);
    if roster[column].len() == 1 {
        assert forall|i: int| 0 <= i < column implies columns_alike(#[trigger] after[i], roster[i]) by {
            assert(after[i].len() == roster[i].len());
        }
        assert forall|i: int| column <= i < after.len() implies columns_alike(
            #[trigger] after[i],
            roster[i + 1],
        ) by {
            assert(after[i].len() == roster[i + 1].len());
        }
    }
}

/// Likeness carries over: columns like columns that are like a third are
/// like the third, and likeness keeps who is dead.
pub proof fn lemma_alike_carries(a: Seq<Enemy>, b: Seq<Enemy>, c: Seq<Enemy>)
    requires
        columns_alike(a, b),
    ensures
        columns_alike(b, c) ==> columns_alike(a, c),
        none_dead(b, 0) ==> none_dead(a, 0),
        columns_alike(a, a),
{
    if columns_alike(b, c) {
        assert forall|k: int| 0 <= k < a.len() implies alike(#[trigger] a[k], c[k]) by {
            assert(alike(a[k], b[k]));
            assert(alike(b[k], c[k]));
        }
    }
    if none_dead(b, 0) {
        assert forall|k: int| 0 <= k < a.len() implies !(#[trigger] a[k]).dead by {
            assert(alike(a[k], b[k]));
            assert(!b[k].dead);
        }
    }
}

/// Sweeping a column from its bottom up to row `from` either thins the
/// column or, if all of it was dead, cuts it out.
pub proof fn lemma_column_swept(spoils: Spoils, column: int, from: int, rows: int)
    requires
        0 <= column < spoils.roster.len(),
        rows == spoils.roster[column].len(),
        0 <= from <= rows,
    ensures
        ({
            let after = column_swept(spoils, column, from, rows).roster;
            column_thinned(after, spoils.roster, column, from) || (from == 0 && column_cut(
                after,
                spoils.roster,
                column,
            ))
        }),
    decreases rows - from,
{
    let before = spoils.roster;
    if from < rows {
        lemma_column_swept(spoils, column, from + 1, rows);
        let higher = column_swept(spoils, column, from + 1, rows);
        let x = higher.roster;
        assert(column_thinned(x, before, column, from + 1));
        let after = collected(higher, column, from).roster;
        if x[column][from].dead {
            lemma_removed_shape(x, column, from);
            if x[column].len() > 1 {
                assert forall|k: int| 0 <= k < from implies alike(
                    #[trigger] after[column][k],
                    before[column][k],
                ) by {
                    assert(alike(after[column][k], x[column][k]));
                    assert(alike(x[column][k], before[column][k]));
                }
                assert forall|k: int| from <= k < after[column].len() implies !(
                #[trigger] after[column][k]).dead by {
                    assert(alike(after[column][k], x[column][k + 1]));
                    assert(!x[column][k + 1].dead);
                }
                assert(column_thinned(after, before, column, from));
            } else {
                assert(from == 0);
                assert forall|i: int| 0 <= i < column implies columns_alike(
                    #[trigger] after[i],
                    before[i],
                ) by {
                    assert(columns_alike(after[i], x[i]));
                    assert(x[i] == before[i]);
                }
                assert forall|i: int| column <= i < after.len() implies columns_alike(
                    #[trigger] after[i],
                    before[i + 1],
                ) by {
                    assert(columns_alike(after[i], x[i + 1]));
                    assert(x[i + 1] == before[i + 1]);
                }
                assert(column_cut(after, before, column));
            }
        } else {
            assert(after == x);
            assert forall|k: int| from <= k < x[column].len() implies !(#[trigger] x[column][k]).dead by {
                if k > from {
                    assert(!x[column][k].dead);
                }
            }
            assert forall|k: int| 0 <= k < from implies alike(
                #[trigger] x[column][k],
                before[column][k],
            ) by {}
            assert(column_thinned(after, before, column, from));
        }
    } else {
        assert forall|k: int| 0 <= k < from implies alike(
            #[trigger] before[column][k],
            before[column][k],
        ) by {}
    }
}

/// Sweeping the columns from the last up to column `from` leaves no dead
/// enemy from column `from` on, and leaves the columns before it alike.
pub proof fn lemma_roster_swept(spoils: Spoils, from: int, columns: int)
    requires
        columns == spoils.roster.len(),
        0 <= from <= columns,
    ensures
        ({
            let after = roster_swept(spoils, from, columns).roster;
            &&& from <= after.len() <= columns
            &&& no_dead_from(after, from)
            &&& forall|i: int| 0 <= i < from ==> columns_alike(#[trigger] after[i], spoils.roster[i])
        }),
    decreases columns - from,
{
    let before = spoils.roster;
    if from < columns {
        lemma_roster_swept(spoils, from + 1, columns);
        let later = roster_swept(spoils, from + 1, columns);
        let x = later.roster;
        let rows = x[from].len() as int;
        lemma_column_swept(later, from, 0, rows);
        let after = column_swept(later, from, 0, rows).roster;
        assert(after == roster_swept(spoils, from, columns).roster);
        if column_thinned(after, x, from, 0) {
            assert forall|i: int| from <= i < after.len() implies none_dead(#[trigger] after[i], 0) by {
                if i != from {
                    assert(after[i] == x[i]);
                    assert(none_dead(x[i], 0));
                }
            }
            assert forall|i: int| 0 <= i < from implies columns_alike(
                #[trigger] after[i],
                before[i],
            ) by {
                assert(after[i] == x[i]);
                assert(columns_alike(x[i], before[i]));
            }
        } else {
            assert(column_cut(after, x, from));
            assert forall|i: int| from <= i < after.len() implies none_dead(#[trigger] after[i], 0) by {
                assert(columns_alike(after[i], x[i + 1]));
                assert(none_dead(x[i + 1], 0));
                lemma_alike_carries(after[i], x[i + 1], x[i + 1]);
            }
            assert forall|i: int| 0 <= i < from implies columns_alike(
                #[trigger] after[i],
                before[i],
            ) by {
                assert(columns_alike(after[i], x[i]));
                assert(columns_alike(x[i], before[i]));
                lemma_alike_carries(after[i], x[i], before[i]);
            }
        }
    } else {
        assert forall|i: int| 0 <= i < from implies columns_alike(
            #[trigger] before[i],
            before[i],
        ) by {}
    }
}

/// After the sweep, no enemy of the formation is dead, and the formation
/// has no more columns than it had.
pub proof fn lemma_sweep_leaves_no_dead(spoils: Spoils)
    ensures
        swept(spoils).roster.len() <= spoils.roster.len(),
        forall|i: int, j: int|
            0 <= i < swept(spoils).roster.len() && 0 <= j < swept(spoils).roster[i].len() ==> !(
            #[trigger] swept(spoils).roster[i][j]).dead,
{
    lemma_roster_swept(spoils, 0, spoils.roster.len() as int);
    let after = swept(spoils).roster;
    assert forall|i: int, j: int| 0 <= i < after.len() && 0 <= j < after[i].len() implies !(
    #[trigger] after[i][j]).dead by {
        assert(none_dead(after[i], 0));
    }
}

/// A formation without dead enemies is left as it is by the sweep.
pub proof fn lemma_sweep_of_the_living(spoils: Spoils)
    requires
        no_dead_from(spoils.roster, 0),
    ensures
        swept(spoils) == spoils,
{
    lemma_living_roster(spoils, 0, spoils.roster.len() as int);
}

/// Sweeping a column none of whose enemies is dead takes nothing out.
proof fn lemma_living_column(spoils: Spoils, column: int, from: int, rows: int)
    requires
        0 <= column < spoils.roster.len(),
        none_dead(spoils.roster[column], 0),
        0 <= from,
    ensures
        column_swept(spoils, column, from, rows) == spoils,
    decreases rows - from,
{
    if from < rows {
        lemma_living_column(spoils, column, from + 1, rows);
        if from < spoils.roster[column].len() {
            assert(!spoils.roster[column][from].dead);
        }
    }
}

/// Sweeping a formation none of whose enemies is dead takes nothing out.
proof fn lemma_living_roster(spoils: Spoils, from: int, columns: int)
    requires
        no_dead_from(spoils.roster, 0),
        columns == spoils.roster.len(),
        0 <= from,
    ensures
        roster_swept(spoils, from, columns) == spoils,
    decreases columns - from,
{
    if from < columns {
        lemma_living_roster(spoils, from + 1, columns);
        assert(none_dead(spoils.roster[from], 0));
        lemma_living_column(spoils, from, 0, spoils.roster[from].len() as int);
    }
}

} // verus!
