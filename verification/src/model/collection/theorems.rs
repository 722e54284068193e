//! What holds of compiling and diffing, for all collections.

use vstd::prelude::*;

use super::column_def::{
    find_column, lemma_find_column_none, lemma_find_column_some, ColumnDefView,
};
use super::column_type::{ColumnTypeView, RelationTypeView};
use super::diff::{
    column_edits, column_status, diff, edits, is_evolution, is_removed, lemma_edits_push,
    ColumnChangeView, ColumnStatus,
};
use super::{column_clauses, CollectionView};

verus! {

/// Whether two columns agree in name, type and constraints. Their ids may differ.
pub open spec fn same_shape(a: ColumnDefView, b: ColumnDefView) -> bool {
    &&& a.name == b.name
    &&& a.column_type == b.column_type
    &&& a.required == b.required
    &&& a.unique == b.unique
}

/// The `create table` statement is fixed by the collection's name and, column
/// by column, by name, type and constraints: collections that agree in these
/// compile to the same statement, whatever the ids of their columns.
pub proof fn theorem_create_statement_ignores_ids(a: CollectionView, b: CollectionView)
    requires
        a.name == b.name,
        a.column_defs.len() == b.column_defs.len(),
        forall|i: int|
            0 <= i < a.column_defs.len() ==> same_shape(
                #[trigger] a.column_defs[i],
                b.column_defs[i],
            ),
    ensures
        a.create_table_ddl() == b.create_table_ddl(),
{
    assert(column_clauses(a.column_defs) =~= column_clauses(b.column_defs));
}

/// Every storage type is one of five names.
pub proof fn theorem_storage_type_is_known(column_type: ColumnTypeView)
    ensures
        ({
            let name = column_type.physical_type();
            name == "uuid"@ || name == "bigint"@ || name == "decimal"@ || name == "text"@ || name
                == "jsonb"@
        }),
{
}

/// The edits come in the order of the new snapshot's columns: the edits for
/// two runs of columns, one behind the other, are the edits for the first run
/// and behind them the edits for the second.
pub proof fn theorem_edits_follow_new_order(
    old: Seq<ColumnDefView>,
    first: Seq<ColumnDefView>,
    second: Seq<ColumnDefView>,
)
    ensures
        edits(old, first + second) == edits(old, first) + edits(old, second),
    decreases second.len(),
{
    if second.len() == 0 {
        assert(first + second =~= first);
        assert(edits(old, first) + edits(old, second) =~= edits(old, first));
    } else {
        theorem_edits_follow_new_order(old, first, second.drop_last());
        assert((first + second).drop_last() =~= first + second.drop_last());
        assert((first + second).last() == second.last());
        assert(edits(old, first + second) =~= edits(old, first) + edits(old, second));
    }
}

/// Every `create table` statement begins with `create table if not exists`
/// and the table's name, so it asks for nothing where the table is there already.
pub proof fn theorem_create_statement_is_guarded(collection: CollectionView)
    ensures
        ("create table if not exists "@ + collection.name).is_prefix_of(
            collection.create_table_ddl(),
        ),
{
    let head = "create table if not exists "@ + collection.name;
    let whole = collection.create_table_ddl();
    assert(whole.len() >= head.len());
    assert(whole.subrange(0, head.len() as int) =~= head);
}

/// Whether columns that share an id are equal field for field. It holds of
/// every collection whose columns have ids of their own.
pub open spec fn ids_consistent(defs: Seq<ColumnDefView>) -> bool {
    forall|i: int, j: int|
        0 <= i < j < defs.len() && (#[trigger] defs[i]).id == (#[trigger] defs[j]).id ==> defs[i]
            == defs[j]
}

/// Whether every column has an id of its own.
pub open spec fn distinct_ids(defs: Seq<ColumnDefView>) -> bool {
    forall|i: int, j: int|
        0 <= i < j < defs.len() ==> (#[trigger] defs[i]).id != (#[trigger] defs[j]).id
}

/// Columns with ids of their own are consistent.
pub proof fn lemma_distinct_ids_are_consistent(defs: Seq<ColumnDefView>)
    requires
        distinct_ids(defs),
    ensures
        ids_consistent(defs),
{
}

/// Among consistent columns every column is the one that its id finds.
proof fn lemma_consistent_finds_itself(defs: Seq<ColumnDefView>, j: int)
    requires
        ids_consistent(defs),
        0 <= j < defs.len(),
    ensures
        find_column(defs, defs[j].id) == Some(defs[j]),
{
    let id = defs[j].id;
    lemma_find_column_none(defs, id);
    lemma_find_column_some(defs, id);
    let i = choose|i: int|
        0 <= i < defs.len() && #[trigger] defs[i] == find_column(defs, id)->0 && defs[i].id == id
            && forall|k: int| 0 <= k < i ==> defs[k].id != id;
    assert(i <= j);
}

/// The edits from consistent columns to a part of themselves are none.
proof fn lemma_no_edits_within(defs: Seq<ColumnDefView>, n: int)
    requires
        ids_consistent(defs),
        0 <= n <= defs.len(),
    ensures
        edits(defs, defs.take(n)) == Seq::<ColumnChangeView>::empty(),
    decreases n,
{
    if n > 0 {
        lemma_no_edits_within(defs, n - 1);
        lemma_consistent_finds_itself(defs, n - 1);
        assert(defs.take(n).drop_last() =~= defs.take(n - 1));
        assert(defs.take(n).last() == defs[n - 1]);
        assert(column_edits(defs, defs[n - 1]) =~= Seq::<ColumnChangeView>::empty());
        assert(edits(defs, defs.take(n)) =~= Seq::<ColumnChangeView>::empty());
    }
}

/// The edits are none only where no column asks for one.
proof fn lemma_no_edits_means_none_asked(old: Seq<ColumnDefView>, new: Seq<ColumnDefView>, j: int)
    requires
        edits(old, new).len() == 0,
        0 <= j < new.len(),
    ensures
        column_edits(old, new[j]).len() == 0,
    decreases new.len(),
{
    if j < new.len() - 1 {
        lemma_no_edits_means_none_asked(old, new.drop_last(), j);
    }
}

/// A column whose id the collection does not hold, put behind the
/// collection's columns, is added, and no other column is touched.
pub proof fn theorem_appended_column_is_added(defs: Seq<ColumnDefView>, column: ColumnDefView)
    requires
        ids_consistent(defs),
        forall|i: int| 0 <= i < defs.len() ==> (#[trigger] defs[i]).id != column.id,
    ensures
        diff(defs, defs.push(column)) matches Ok(changes) && changes == seq![
            ColumnChangeView::AddColumn(column),
        ],
{
    let new = defs.push(column);
    lemma_no_edits_within(defs, defs.len() as int);
    assert(defs.take(defs.len() as int) =~= defs);
    lemma_find_column_none(defs, column.id);
    lemma_edits_push(defs, defs, column);
    assert(edits(defs, new) =~= seq![ColumnChangeView::AddColumn(column)]);
    assert forall|j: int| 0 <= j < new.len() implies column_status(defs, #[trigger] new[j])
        != ColumnStatus::Altered by {
        if j < defs.len() {
            lemma_consistent_finds_itself(defs, j);
        }
    }
    assert forall|i: int| 0 <= i < defs.len() implies !is_removed(new, #[trigger] defs[i]) by {
        lemma_find_column_none(new, defs[i].id);
        assert(new[i].id == defs[i].id);
    }
}

/// The edits from a collection to itself with one column renamed, as far as
/// the first `n` columns go: none before the renamed column, the rename from there on.
proof fn lemma_edits_of_rename(defs: Seq<ColumnDefView>, i: int, name: Seq<char>, n: int)
    requires
        distinct_ids(defs),
        0 <= i < defs.len(),
        name != defs[i].name,
        0 <= n <= defs.len(),
    ensures
        edits(defs, defs.update(i, defs[i].renamed(name)).take(n)) == if n <= i {
            Seq::<ColumnChangeView>::empty()
        } else {
            seq![ColumnChangeView::RenameColumn(defs[i].name, name)]
        },
    decreases n,
{
    let new = defs.update(i, defs[i].renamed(name));
    if n > 0 {
        lemma_edits_of_rename(defs, i, name, n - 1);
        lemma_distinct_ids_are_consistent(defs);
        lemma_consistent_finds_itself(defs, n - 1);
        assert(new.take(n).drop_last() =~= new.take(n - 1));
        assert(new.take(n).last() == new[n - 1]);
        if n - 1 == i {
            assert(column_status(defs, new[i]) == ColumnStatus::Renamed);
            assert(edits(defs, new.take(n)) =~= seq![
                ColumnChangeView::RenameColumn(defs[i].name, name),
            ]);
        } else {
            assert(column_status(defs, new[n - 1]) == ColumnStatus::Unchanged);
            assert(edits(defs, new.take(n)) =~= edits(defs, new.take(n - 1)));
        }
    }
}

/// Renaming one column of a collection whose columns have ids of their own
/// gives the one rename: the column keeps its identity, none is added and no
/// other is touched.
pub proof fn theorem_renamed_column_is_renamed(defs: Seq<ColumnDefView>, i: int, name: Seq<char>)
    requires
        distinct_ids(defs),
        0 <= i < defs.len(),
        name != defs[i].name,
    ensures
        diff(defs, defs.update(i, defs[i].renamed(name))) matches Ok(changes) && changes == seq![
            ColumnChangeView::RenameColumn(defs[i].name, name),
        ],
{
    let new = defs.update(i, defs[i].renamed(name));
    lemma_distinct_ids_are_consistent(defs);
    lemma_edits_of_rename(defs, i, name, defs.len() as int);
    assert(new.take(defs.len() as int) =~= new);
    assert forall|j: int| 0 <= j < new.len() implies column_status(defs, #[trigger] new[j])
        != ColumnStatus::Altered by {
        lemma_consistent_finds_itself(defs, j);
    }
    assert forall|k: int| 0 <= k < defs.len() implies !is_removed(new, #[trigger] defs[k]) by {
        lemma_find_column_none(new, defs[k].id);
        assert(new[k].id == defs[k].id);
    }
}

/// A column that keeps its id, type and constraints and changes its name is
/// renamed: between two collections of that one column the difference is the
/// one rename, and no column is added.
pub proof fn theorem_rename_keeps_identity(before: ColumnDefView, after: ColumnDefView)
    requires
        after == before.renamed(after.name),
        after.name != before.name,
    ensures
        diff(seq![before], seq![after]) matches Ok(changes) && changes == seq![
            ColumnChangeView::RenameColumn(before.name, after.name),
        ],
{
    let old = seq![before];
    theorem_renamed_column_is_renamed(old, 0, after.name);
    assert(old.update(0, before.renamed(after.name)) =~= seq![after]);
}

/// A column whose id the old snapshot does not hold is added: where the new
/// snapshot is the old column and one such column behind it, the difference
/// is the one addition, and the old column is left as it is.
pub proof fn theorem_new_column_is_added(a: ColumnDefView, b: ColumnDefView)
    requires
        b.id != a.id,
    ensures
        diff(seq![a], seq![a, b]) matches Ok(changes) && changes == seq![
            ColumnChangeView::AddColumn(b),
        ],
{
    theorem_appended_column_is_added(seq![a], b);
    assert(seq![a].push(b) =~= seq![a, b]);
}

/// Diffing a collection against itself gives no edit, where the columns that
/// share an id are equal. Where two columns share an id and differ, the later
/// one is held against the earlier, and the difference is not empty: it is a
/// rename or `InvalidSchema`.
pub proof fn theorem_diff_with_itself_is_empty(defs: Seq<ColumnDefView>)
    ensures
        ids_consistent(defs) <==> (diff(defs, defs) matches Ok(changes) && changes.len() == 0),
{
    if ids_consistent(defs) {
        lemma_no_edits_within(defs, defs.len() as int);
        assert(defs.take(defs.len() as int) =~= defs);
        assert forall|j: int| 0 <= j < defs.len() implies column_status(defs, #[trigger] defs[j])
            != ColumnStatus::Altered && !is_removed(defs, defs[j]) by {
            lemma_consistent_finds_itself(defs, j);
        }
        assert(is_evolution(defs, defs));
    }
    if diff(defs, defs) matches Ok(changes) && changes.len() == 0 {
        assert forall|i: int, j: int|
            0 <= i < j < defs.len() && (#[trigger] defs[i]).id == (#[trigger] defs[j]).id implies defs[i]
            == defs[j] by {
            lemma_no_edits_means_none_asked(defs, defs, i);
            lemma_no_edits_means_none_asked(defs, defs, j);
            assert(column_status(defs, defs[i]) != ColumnStatus::Altered);
            assert(column_status(defs, defs[j]) != ColumnStatus::Altered);
            assert(column_status(defs, defs[i]) == ColumnStatus::Unchanged);
            assert(column_status(defs, defs[j]) == ColumnStatus::Unchanged);
        }
    }
}

/// A one-to-one relation is unique by its kind: the clause of a required one
/// holds `bigint unique not null references` and the target, whatever its
/// own `unique` flag says.
pub proof fn theorem_one_to_one_is_unique(column: ColumnDefView, table: Seq<char>)
    requires
        column.column_type == ColumnTypeView::Relation(RelationTypeView::OneToOne(table)),
        column.required,
    ensures
        column.clause() == column.name + " bigint unique not null references "@ + table + "(id)"@,
        column.clause() == (ColumnDefView { unique: !column.unique, ..column }).clause(),
{
    reveal_strlit(" ");
    reveal_strlit("bigint");
    reveal_strlit("unique");
    reveal_strlit("not null");
    reveal_strlit(" references ");
    reveal_strlit(" bigint unique not null references ");
    assert(" "@ + "bigint"@ + (" "@ + "unique"@) + (" "@ + "not null"@) + " references "@
        =~= " bigint unique not null references "@);
    assert(column.clause() =~= column.name + (" "@ + "bigint"@ + (" "@ + "unique"@) + (" "@
        + "not null"@) + " references "@) + table + "(id)"@);
}

/// A many-to-one relation is never unique: its clause is the same whatever
/// its own `unique` flag says.
pub proof fn theorem_many_to_one_is_not_unique(column: ColumnDefView, table: Seq<char>)
    requires
        column.column_type == ColumnTypeView::Relation(RelationTypeView::ManyToOne(table)),
    ensures
        column.clause() == (ColumnDefView { unique: !column.unique, ..column }).clause(),
        !column.enforces_unique(),
{
}

} // verus!
