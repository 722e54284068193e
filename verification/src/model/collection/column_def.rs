//! One column of a collection: its identity, its name, its type and its constraints.

use vstd::prelude::*;
use vstd::string::*;

use super::column_type::{ColumnType, ColumnTypeView, RelationType, RelationTypeView};

verus! {

/// The definition of one column.
///
/// The `id` alone says which column this is: two definitions with the same
/// `id` and different names are one column before and after a rename. It is
/// the 128-bit value of the identifier that was minted when the column was
/// first made.
#[derive(Debug)]
pub struct ColumnDef {
    pub id: u128,
    pub name: String,
    pub column_type: ColumnType,
    pub required: bool,
    pub unique: bool,
}

/// A column definition as a mathematical value.
pub struct ColumnDefView {
    pub id: u128,
    pub name: Seq<char>,
    pub column_type: ColumnTypeView,
    pub required: bool,
    pub unique: bool,
}

impl View for ColumnDef {
    type V = ColumnDefView;

    open spec fn view(&self) -> ColumnDefView {
        ColumnDefView {
            id: self.id,
            name: self.name@,
            column_type: self.column_type@,
            required: self.required,
            unique: self.unique,
        }
    }
}

/// A constraint word with the blank that parts it from what stands before it,
/// or nothing where the constraint is absent.
pub open spec fn constraint(present: bool, word: Seq<char>) -> Seq<char> {
    if present {
        " "@ + word
    } else {
        Seq::empty()
    }
}

impl ColumnDefView {
    /// Whether the column's values must differ from row to row. A relation
    /// decides this by its cardinality, any other column by its flag.
    pub open spec fn enforces_unique(self) -> bool {
        match self.column_type {
            ColumnTypeView::Relation(RelationTypeView::ManyToOne(_)) => false,
            ColumnTypeView::Relation(RelationTypeView::OneToOne(_)) => true,
            ColumnTypeView::UUID
            | ColumnTypeView::Int
            | ColumnTypeView::Decimal
            | ColumnTypeView::Text
            | ColumnTypeView::JSON
            | ColumnTypeView::Email
            | ColumnTypeView::Url
            | ColumnTypeView::User => self.unique,
        }
    }

    /// The table whose rows the column's values point to, where it is a foreign key.
    pub open spec fn referenced_table(self) -> Option<Seq<char>> {
        match self.column_type {
            ColumnTypeView::User => Some("users"@),
            ColumnTypeView::Relation(relation) => Some(relation.target()),
            ColumnTypeView::UUID
            | ColumnTypeView::Int
            | ColumnTypeView::Decimal
            | ColumnTypeView::Text
            | ColumnTypeView::JSON
            | ColumnTypeView::Email
            | ColumnTypeView::Url => None,
        }
    }

    /// The end of the clause that names the referenced table, or nothing.
    pub open spec fn reference(self) -> Seq<char> {
        match self.referenced_table() {
            Some(table) => " references "@ + table + "(id)"@,
            None => Seq::empty(),
        }
    }

    /// The column clause: the name, the storage type, then `unique`, `not null`
    /// and the reference, each only where it applies, with single blanks between.
    pub open spec fn clause(self) -> Seq<char> {
        self.name + " "@ + self.column_type.physical_type() + constraint(
            self.enforces_unique(),
            "unique"@,
        ) + constraint(self.required, "not null"@) + self.reference()
    }

    /// The same column under another name.
    pub open spec fn renamed(self, name: Seq<char>) -> ColumnDefView {
        ColumnDefView { name, ..self }
    }
}

/// The first definition with the given id, if there is one.
pub open spec fn find_column(defs: Seq<ColumnDefView>, id: u128) -> Option<ColumnDefView>
    decreases defs.len(),
{
    if defs.len() == 0 {
        None
    } else if defs.first().id == id {
        Some(defs.first())
    } else {
        find_column(defs.drop_first(), id)
    }
}

/// The views of a vector of definitions.
pub open spec fn def_views(defs: Seq<ColumnDef>) -> Seq<ColumnDefView> {
    Seq::new(defs.len(), |i: int| defs[i]@)
}

/// `find_column` gives the definition at the first index that holds the id.
pub proof fn lemma_find_column_first(defs: Seq<ColumnDefView>, id: u128, i: int)
    requires
        0 <= i < defs.len(),
        defs[i].id == id,
        forall|j: int| 0 <= j < i ==> defs[j].id != id,
    ensures
        find_column(defs, id) == Some(defs[i]),
    decreases defs.len(),
{
    if i > 0 {
        let rest = defs.drop_first();
        assert(forall|j: int| 0 <= j < i - 1 ==> rest[j] == defs[j + 1]);
        lemma_find_column_first(rest, id, i - 1);
    }
}

/// `find_column` gives nothing exactly where no definition holds the id.
pub proof fn lemma_find_column_none(defs: Seq<ColumnDefView>, id: u128)
    ensures
        find_column(defs, id) is None <==> forall|j: int| 0 <= j < defs.len() ==> defs[j].id != id,
    decreases defs.len(),
{
    if defs.len() > 0 {
        let rest = defs.drop_first();
        lemma_find_column_none(rest, id);
        if defs.first().id != id {
            if find_column(rest, id) is None {
                assert forall|j: int| 0 <= j < defs.len() implies defs[j].id != id by {
                    if j > 0 {
                        assert(rest[j - 1] == defs[j]);
                    }
                }
            } else {
                let j = choose|j: int| 0 <= j < rest.len() && rest[j].id == id;
                assert(defs[j + 1] == rest[j]);
            }
        }
    }
}

/// What `find_column` finds is a definition of the sequence, it holds the id,
/// and no definition before it does.
pub proof fn lemma_find_column_some(defs: Seq<ColumnDefView>, id: u128)
    requires
        find_column(defs, id) is Some,
    ensures
        exists|i: int|
            0 <= i < defs.len() && #[trigger] defs[i] == find_column(defs, id)->0 && defs[i].id
                == id && forall|j: int| 0 <= j < i ==> defs[j].id != id,
    decreases defs.len(),
{
    if defs.first().id == id {
        assert(defs[0] == find_column(defs, id)->0);
    } else {
        let rest = defs.drop_first();
        lemma_find_column_some(rest, id);
        let i = choose|i: int|
            0 <= i < rest.len() && #[trigger] rest[i] == find_column(rest, id)->0 && rest[i].id
                == id && forall|j: int| 0 <= j < i ==> rest[j].id != id;
        assert(defs[i + 1] == rest[i]);
        assert forall|j: int| 0 <= j < i + 1 implies defs[j].id != id by {
            if j > 0 {
                assert(rest[j - 1] == defs[j]);
            }
        }
    }
}

impl Clone for ColumnDef {
    fn clone(&self) -> (r: ColumnDef)
        ensures
            r == *self,
    {
        ColumnDef {
            id: self.id,
            name: self.name.clone(),
            column_type: self.column_type.clone(),
            required: self.required,
            unique: self.unique,
        }
    }
}

impl PartialEq for ColumnDef {
    fn eq(&self, other: &ColumnDef) -> (r: bool) {
        self.id == other.id && self.name == other.name && self.column_type == other.column_type
            && self.required == other.required && self.unique == other.unique
    }
}

impl vstd::std_specs::cmp::PartialEqSpecImpl for ColumnDef {
    open spec fn obeys_eq_spec() -> bool {
        true
    }

    open spec fn eq_spec(&self, other: &ColumnDef) -> bool {
        self@ == other@
    }
}

impl ColumnDef {
    /// The clause that defines this column, as it stands in `create table`
    /// and behind `add column`.
    pub fn sql_column_def_for_insert(&self) -> (r: String)
        ensures
            r@ == self@.clause(),
    {
        let mut buf: String = String::new();
        buf.append(self.name.as_str());
        buf.append(" ");
        buf.append(self.column_type.pg_sql_type().as_str());
        match &self.column_type {
            ColumnType::User => {
                append_constraint(&mut buf, self.is_unique().as_str());
                append_constraint(&mut buf, self.is_not_null().as_str());
                buf.append(" references ");
                buf.append("users");
                buf.append("(id)");
            },
            ColumnType::Relation(RelationType::ManyToOne(table)) => {
                append_constraint(&mut buf, self.is_not_null().as_str());
                buf.append(" references ");
                buf.append(table.as_str());
                buf.append("(id)");
            },
            ColumnType::Relation(RelationType::OneToOne(table)) => {
                append_constraint(&mut buf, "unique");
                append_constraint(&mut buf, self.is_not_null().as_str());
                buf.append(" references ");
                buf.append(table.as_str());
                buf.append("(id)");
            },
            ColumnType::UUID
            | ColumnType::Int
            | ColumnType::Decimal
            | ColumnType::Text
            | ColumnType::JSON
            | ColumnType::Email
            | ColumnType::Url => {
                append_constraint(&mut buf, self.is_unique().as_str());
                append_constraint(&mut buf, self.is_not_null().as_str());
            },
        }
        proof {
            reveal_strlit("unique");
            reveal_strlit("not null");
            assert(buf@ =~= self@.clause());
        }
        buf
    }

    /// The word `unique` where the flag is set, the empty string where it is not.
    pub fn is_unique(&self) -> (r: String)
        ensures
            r@ == if self.unique {
                "unique"@
            } else {
                Seq::empty()
            },
    {
        match self.unique {
            true => String::from_str("unique"),
            _ => String::new(),
        }
    }

    /// The words `not null` where the column is required, the empty string where it is not.
    pub fn is_not_null(&self) -> (r: String)
        ensures
            r@ == if self.required {
                "not null"@
            } else {
                Seq::empty()
            },
    {
        match self.required {
            true => String::from_str("not null"),
            _ => String::new(),
        }
    }
}

/// Appends the word behind a blank; an empty word adds nothing.
fn append_constraint(buf: &mut String, word: &str)
    ensures
        final(buf)@ == old(buf)@ + constraint(word@.len() > 0, word@),
{
    if !word.is_empty() {
        buf.append(" ");
        buf.append(word);
        proof {
            assert(final(buf)@ =~= old(buf)@ + (" "@ + word@));
        }
    } else {
        proof {
            assert(buf@ =~= old(buf)@ + Seq::<char>::empty());
        }
    }
}

/// Finding a definition by its id.
pub trait FindById<T> {
    /// The first item with the given id, if there is one.
    fn find_def(&self, id: u128) -> Option<&T>;
}

impl FindById<ColumnDef> for Vec<ColumnDef> {
    fn find_def(&self, id: u128) -> (r: Option<&ColumnDef>)
        ensures
            match r {
                Some(found) => {
                    &&& find_column(def_views(self@), id) == Some(found@)
                    &&& exists|i: int|
                        0 <= i < self.len() && *found == #[trigger] self[i] && self[i].id == id
                            && forall|j: int| 0 <= j < i ==> self[j].id != id
                },
                None => {
                    &&& find_column(def_views(self@), id) is None
                    &&& forall|j: int| 0 <= j < self.len() ==> self[j].id != id
                },
            },
    {
        let mut i: usize = 0;
        while i < self.len()
            invariant
                i <= self.len(),
                forall|j: int| 0 <= j < i ==> self[j].id != id,
            decreases self.len() - i,
        {
            if self[i].id == id {
                proof {
                    lemma_find_column_first(def_views(self@), id, i as int);
                }
                return Some(&self[i]);
            }
            i += 1;
        }
        proof {
            lemma_find_column_none(def_views(self@), id);
        }
        None
    }
}

} // verus!
