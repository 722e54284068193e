//! Collections and their columns.

use vstd::prelude::*;
use vstd::string::*;

use crate::text::{join, join_strings, views};

pub mod column_def;
pub mod column_type;
pub mod diff;
pub mod theorems;

pub use self::column_def::{ColumnDef, FindById};
pub use self::column_type::{ColumnType, RelationType};

use self::column_def::{def_views, ColumnDefView};
use self::diff::{
    alter_clauses, column_status, diff, edits, is_removed, lemma_edits_push,
    lemma_edits_supported, lemma_status_by_fields, ColumnChangeView, ColumnStatus,
};

verus! {

/// Why an operation on a collection was given up.
#[derive(Debug, Clone, Copy, PartialEq, Eq, Structural)]
pub enum CollectionError {
    /// The schema asks for a change that is not supported: a column was
    /// altered in its type or constraints, or removed.
    InvalidSchema,
    /// The executor reported that the statement failed.
    ExecutionFailed,
}

/// One edit of a table's columns.
#[derive(Debug)]
pub enum ColumnChange<'a> {
    /// A new column with the given definition.
    AddColumn(&'a ColumnDef),
    /// A column's old name and its new one.
    RenameColumn(String, String),
    /// A column's name and its new type. Reserved: the diff never gives it.
    ChangeType(String, ColumnType),
}

impl<'a> View for ColumnChange<'a> {
    type V = ColumnChangeView;

    open spec fn view(&self) -> ColumnChangeView {
        match self {
            ColumnChange::AddColumn(column) => ColumnChangeView::AddColumn(column@),
            ColumnChange::RenameColumn(from, to) => ColumnChangeView::RenameColumn(from@, to@),
            ColumnChange::ChangeType(name, column_type) => ColumnChangeView::ChangeType(
                name@,
                column_type@,
            ),
        }
    }
}

/// The views of a vector of edits.
pub open spec fn change_views(changes: Seq<ColumnChange>) -> Seq<ColumnChangeView> {
    Seq::new(changes.len(), |i: int| changes[i]@)
}

impl<'a> ColumnChange<'a> {
    /// The `alter table` clause that makes this edit. A change of type has
    /// no clause and is left out by the precondition.
    pub fn get_alter_statement(&'a self) -> (r: String)
        requires
            self@.is_supported(),
        ensures
            r@ == self@.alter_clause(),
    {
        match self {
            Self::AddColumn(cd) => {
                let mut clause = String::from_str("add column ");
                clause.append(cd.sql_column_def_for_insert().as_str());
                clause
            },
            Self::RenameColumn(from, to) => {
                let mut clause = String::from_str("rename column ");
                clause.append(from.as_str());
                clause.append(" to ");
                clause.append(to.as_str());
                clause
            },
            Self::ChangeType(_, _) => vstd::pervasive::unreached(),
        }
    }
}

/// A logical table: a name and its columns, in the order in which they were added.
#[derive(Debug)]
pub struct Collection {
    pub name: String,
    pub column_defs: Vec<ColumnDef>,
}

/// A collection as a mathematical value.
pub struct CollectionView {
    pub name: Seq<char>,
    pub column_defs: Seq<ColumnDefView>,
}

impl View for Collection {
    type V = CollectionView;

    open spec fn view(&self) -> CollectionView {
        CollectionView { name: self.name@, column_defs: def_views(self.column_defs@) }
    }
}

/// The clauses of a list of columns, in order.
pub open spec fn column_clauses(defs: Seq<ColumnDefView>) -> Seq<Seq<char>> {
    Seq::new(defs.len(), |i: int| defs[i].clause())
}

impl CollectionView {
    /// The statement that creates the table: the three columns that every
    /// table has, then the collection's own, joined by commas.
    pub open spec fn create_table_ddl(self) -> Seq<char> {
        "create table if not exists "@ + self.name
            + "( id bigserial primary key, created_at timestamptz not null default now(), updated_at timestamptz, "@
            + join(column_clauses(self.column_defs), ","@) + " )"@
    }

    /// The one statement that makes the given edits on the table, their
    /// clauses joined by commas.
    pub open spec fn alter_table_ddl(self, changes: Seq<ColumnChangeView>) -> Seq<char> {
        "alter table "@ + self.name + " "@ + join(alter_clauses(changes), ","@)
    }

    /// The statement that evolves this collection's table into `new`: the
    /// edits of the difference in one `alter table`, or the difference's error.
    pub open spec fn update_ddl(self, new: CollectionView) -> Result<Seq<char>, CollectionError> {
        match diff(self.column_defs, new.column_defs) {
            Ok(changes) => Ok(self.alter_table_ddl(changes)),
            Err(e) => Err(e),
        }
    }
}

impl Collection {
    /// The `create table if not exists` statement for this collection.
    pub fn create_table_statement(&self) -> (r: String)
        ensures
            r@ == self@.create_table_ddl(),
    {
        let mut clauses: Vec<String> = Vec::new();
        let mut i: usize = 0;
        while i < self.column_defs.len()
            invariant
                i <= self.column_defs.len(),
                clauses.len() == i,
                forall|j: int|
                    0 <= j < i ==> (#[trigger] clauses[j])@ == self@.column_defs[j].clause(),
            decreases self.column_defs.len() - i,
        {
            let clause = self.column_defs[i].sql_column_def_for_insert();
            clauses.push(clause);
            i += 1;
        }
        proof {
            assert(views(clauses@) =~= column_clauses(self@.column_defs));
        }
        let cds = join_strings(&clauses, ",");
        let mut stmt = String::new();
        stmt.append("create table if not exists ");
        stmt.append(self.name.as_str());
        stmt.append(
            "( id bigserial primary key, created_at timestamptz not null default now(), updated_at timestamptz, ",
        );
        stmt.append(cds.as_str());
        stmt.append(" )");
        proof {
            assert(stmt@ =~= self@.create_table_ddl());
        }
        stmt
    }

    /// The edits that lead from this collection to `other`, in the order of
    /// `other`'s columns, or `InvalidSchema` where `other` alters or removes
    /// a column.
    pub fn column_changes<'a>(&self, other: &'a Collection) -> (r: Result<
        Vec<ColumnChange<'a>>,
        CollectionError,
    >)
        ensures
            match diff(self@.column_defs, other@.column_defs) {
                Ok(list) => r matches Ok(changes) && change_views(changes@) == list,
                Err(reason) => r matches Err(e) && e == reason,
            },
    {
        let ghost old_defs = self@.column_defs;
        let ghost new_defs = other@.column_defs;
        let mut changes: Vec<ColumnChange<'a>> = Vec::new();
        let mut i: usize = 0;
        while i < other.column_defs.len()
            invariant
                i <= other.column_defs.len(),
                old_defs == self@.column_defs,
                new_defs == other@.column_defs,
                forall|j: int|
                    0 <= j < i ==> column_status(old_defs, #[trigger] new_defs[j])
                        != ColumnStatus::Altered,
                change_views(changes@) == edits(old_defs, new_defs.take(i as int)),
            decreases other.column_defs.len() - i,
        {
            let cd = &other.column_defs[i];
            proof {
                lemma_status_by_fields(old_defs, cd@);
                lemma_edits_push(old_defs, new_defs.take(i as int), cd@);
                assert(new_defs.take(i as int).push(cd@) =~= new_defs.take(i + 1));
            }
            let ghost before = change_views(changes@);
            match self.column_defs.find_def(cd.id) {
                Some(orig_cd) => {
                    if *orig_cd == *cd {
                        proof {
                            assert(before + Seq::<ColumnChangeView>::empty() =~= before);
                        }
                    } else if orig_cd.column_type == cd.column_type && orig_cd.required
                        == cd.required && orig_cd.unique == cd.unique {
                        changes.push(
                            ColumnChange::RenameColumn(orig_cd.name.clone(), cd.name.clone()),
                        );
                        proof {
                            assert(change_views(changes@) =~= before + seq![
                                ColumnChangeView::RenameColumn(orig_cd@.name, cd@.name),
                            ]);
                        }
                    } else {
                        proof {
                            assert(column_status(old_defs, new_defs[i as int])
                                == ColumnStatus::Altered);
                        }
                        return Err(CollectionError::InvalidSchema);
                    }
                },
                None => {
                    changes.push(ColumnChange::AddColumn(cd));
                    proof {
                        assert(change_views(changes@) =~= before + seq![
                            ColumnChangeView::AddColumn(cd@),
                        ]);
                    }
                },
            };
            i += 1;
        }
        proof {
            assert(new_defs.take(i as int) =~= new_defs);
        }
        let mut k: usize = 0;
        while k < self.column_defs.len()
            invariant
                k <= self.column_defs.len(),
                old_defs == self@.column_defs,
                new_defs == other@.column_defs,
                forall|j: int| 0 <= j < k ==> !is_removed(new_defs, #[trigger] old_defs[j]),
            decreases self.column_defs.len() - k,
        {
            if other.column_defs.find_def(self.column_defs[k].id).is_none() {
                proof {
                    assert(is_removed(new_defs, old_defs[k as int]));
                }
                return Err(CollectionError::InvalidSchema);
            }
            k += 1;
        }
        Ok(changes)
    }

    /// The one `alter table` statement that makes the given edits on this
    /// collection's table. A change of type has no clause and is left out by
    /// the precondition.
    pub fn alter_table_statement(&self, changes: &Vec<ColumnChange>) -> (r: String)
        requires
            forall|i: int| 0 <= i < changes.len() ==> (#[trigger] changes[i])@.is_supported(),
        ensures
            r@ == self@.alter_table_ddl(change_views(changes@)),
    {
        let mut clauses: Vec<String> = Vec::new();
        let mut i: usize = 0;
        while i < changes.len()
            invariant
                i <= changes.len(),
                forall|k: int| 0 <= k < changes.len() ==> (#[trigger] changes[k])@.is_supported(),
                clauses.len() == i,
                forall|j: int|
                    0 <= j < i ==> (#[trigger] clauses[j])@ == changes[j]@.alter_clause(),
            decreases changes.len() - i,
        {
            let clause = changes[i].get_alter_statement();
            clauses.push(clause);
            i += 1;
        }
        proof {
            assert(views(clauses@) =~= alter_clauses(change_views(changes@)));
        }
        let column_change_statements = join_strings(&clauses, ",");
        let mut alter_stmt = String::new();
        alter_stmt.append("alter table ");
        alter_stmt.append(self.name.as_str());
        alter_stmt.append(" ");
        alter_stmt.append(column_change_statements.as_str());
        proof {
            assert(alter_stmt@ =~= self@.alter_table_ddl(change_views(changes@)));
        }
        alter_stmt
    }

    /// The statement that evolves this collection's table into `other`, or
    /// `InvalidSchema` where `other` alters or removes a column. Nothing is
    /// to be executed where this fails. Where nothing changed, the statement
    /// is `alter table`, the name and no clause.
    pub fn update_statement(&self, other: &Collection) -> (r: Result<String, CollectionError>)
        ensures
            match self@.update_ddl(other@) {
                Ok(ddl) => r matches Ok(statement) && statement@ == ddl,
                Err(reason) => r matches Err(e) && e == reason,
            },
    {
        match self.column_changes(other) {
            Ok(changes) => {
                proof {
                    lemma_edits_supported(self@.column_defs, other@.column_defs);
                    assert(forall|i: int|
                        0 <= i < changes.len() ==> (#[trigger] changes[i])@ == change_views(
                            changes@,
                        )[i]);
                }
                Ok(self.alter_table_statement(&changes))
            },
            Err(e) => Err(e),
        }
    }
}

/// The result of an operation whose one statement was handed to the executor:
/// success where the executor reported a number of affected rows,
/// `ExecutionFailed` where it reported a failure, whatever the failure was.
pub fn statement_result(reported: Result<u64, ()>) -> (r: Result<(), CollectionError>)
    ensures
        reported is Ok ==> r is Ok,
        reported is Err ==> r == Err::<(), CollectionError>(CollectionError::ExecutionFailed),
{
    match reported {
        Ok(_) => Ok(()),
        Err(_) => Err(CollectionError::ExecutionFailed),
    }
}

} // verus!
