//! The difference between two snapshots of a collection, as a mathematical function.

use vstd::prelude::*;

use super::column_def::{find_column, lemma_find_column_some, ColumnDefView};
use super::column_type::ColumnTypeView;
use super::CollectionError;

verus! {

/// One schema edit as a mathematical value.
pub enum ColumnChangeView {
    AddColumn(ColumnDefView),
    RenameColumn(Seq<char>, Seq<char>),
    ChangeType(Seq<char>, ColumnTypeView),
}

impl ColumnChangeView {
    /// Whether the edit can be compiled to an `alter table` clause. A change of
    /// type is reserved: no clause is defined for it.
    pub open spec fn is_supported(self) -> bool {
        !(self is ChangeType)
    }

    /// The `alter table` clause of a supported edit.
    pub open spec fn alter_clause(self) -> Seq<char>
        recommends
            self.is_supported(),
    {
        match self {
            ColumnChangeView::AddColumn(column) => "add column "@ + column.clause(),
            ColumnChangeView::RenameColumn(from, to) => "rename column "@ + from + " to "@ + to,
            ColumnChangeView::ChangeType(_, _) => Seq::empty(),
        }
    }
}

/// The clauses of a list of edits, in order.
pub open spec fn alter_clauses(changes: Seq<ColumnChangeView>) -> Seq<Seq<char>> {
    Seq::new(changes.len(), |i: int| changes[i].alter_clause())
}

/// How a column of the new snapshot stands to the old snapshot.
pub enum ColumnStatus {
    /// No old column has its id.
    Added,
    /// The old column with its id equals it field for field.
    Unchanged,
    /// The old column with its id differs from it in the name alone.
    Renamed,
    /// The old column with its id differs from it in type, `required` or `unique`.
    Altered,
}

/// The status of a column of the new snapshot. The old column it is held
/// against is the first one with its id.
pub open spec fn column_status(old: Seq<ColumnDefView>, column: ColumnDefView) -> ColumnStatus {
    match find_column(old, column.id) {
        None => ColumnStatus::Added,
        Some(before) => if before == column {
            ColumnStatus::Unchanged
        } else if before.renamed(column.name) == column {
            ColumnStatus::Renamed
        } else {
            ColumnStatus::Altered
        },
    }
}

/// Whether a column of the old snapshot has no column with its id in the new one.
pub open spec fn is_removed(new: Seq<ColumnDefView>, column: ColumnDefView) -> bool {
    find_column(new, column.id) is None
}

/// Whether the step from `old` to `new` can be made with supported edits alone:
/// no column is altered and none is removed.
pub open spec fn is_evolution(old: Seq<ColumnDefView>, new: Seq<ColumnDefView>) -> bool {
    &&& forall|j: int|
        0 <= j < new.len() ==> column_status(old, #[trigger] new[j]) != ColumnStatus::Altered
    &&& forall|i: int| 0 <= i < old.len() ==> !is_removed(new, #[trigger] old[i])
}

/// The edits that one column of the new snapshot asks for: one or none. An
/// altered column asks for none, and makes the whole difference invalid.
pub open spec fn column_edits(old: Seq<ColumnDefView>, column: ColumnDefView) -> Seq<
    ColumnChangeView,
> {
    match column_status(old, column) {
        ColumnStatus::Added => seq![ColumnChangeView::AddColumn(column)],
        ColumnStatus::Renamed => seq![
            ColumnChangeView::RenameColumn(find_column(old, column.id)->0.name, column.name),
        ],
        ColumnStatus::Unchanged | ColumnStatus::Altered => Seq::empty(),
    }
}

/// The edits that the columns of `new` ask for, in the order of `new`.
pub open spec fn edits(old: Seq<ColumnDefView>, new: Seq<ColumnDefView>) -> Seq<ColumnChangeView>
    decreases new.len(),
{
    if new.len() == 0 {
        Seq::empty()
    } else {
        edits(old, new.drop_last()) + column_edits(old, new.last())
    }
}

/// The difference between two snapshots: the edits that lead from `old` to
/// `new`, or `InvalidSchema` where a column is altered or removed.
pub open spec fn diff(old: Seq<ColumnDefView>, new: Seq<ColumnDefView>) -> Result<
    Seq<ColumnChangeView>,
    CollectionError,
> {
    if is_evolution(old, new) {
        Ok(edits(old, new))
    } else {
        Err(CollectionError::InvalidSchema)
    }
}

/// The edits for one column more stand behind the edits for the columns before it.
pub proof fn lemma_edits_push(
    old: Seq<ColumnDefView>,
    new: Seq<ColumnDefView>,
    column: ColumnDefView,
)
    ensures
        edits(old, new.push(column)) == edits(old, new) + column_edits(old, column),
{
    assert(new.push(column).drop_last() =~= new);
}

/// A column that is held against an old one has that old column's id; so it is
/// renamed exactly where type and flags agree and the name does not.
pub proof fn lemma_status_by_fields(old: Seq<ColumnDefView>, column: ColumnDefView)
    ensures
        match find_column(old, column.id) {
            None => column_status(old, column) == ColumnStatus::Added,
            Some(before) => {
                &&& before.id == column.id
                &&& column_status(old, column) == if before == column {
                    ColumnStatus::Unchanged
                } else if before.column_type == column.column_type && before.required
                    == column.required && before.unique == column.unique {
                    ColumnStatus::Renamed
                } else {
                    ColumnStatus::Altered
                }
            },
        },
{
    if find_column(old, column.id) is Some {
        lemma_find_column_some(old, column.id);
    }
}

/// Every edit of a difference is supported, and there is at most one for each
/// column of the new snapshot.
pub proof fn lemma_edits_supported(old: Seq<ColumnDefView>, new: Seq<ColumnDefView>)
    ensures
        edits(old, new).len() <= new.len(),
        forall|k: int|
            0 <= k < edits(old, new).len() ==> (#[trigger] edits(old, new)[k]).is_supported(),
    decreases new.len(),
{
    if new.len() > 0 {
        lemma_edits_supported(old, new.drop_last());
    }
}

} // verus!
