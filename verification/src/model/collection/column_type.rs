//! The closed set of logical column types and the storage type of each.

use vstd::prelude::*;
use vstd::string::*;

verus! {

/// The cardinality of a relation column, with the table it points to.
#[derive(Debug)]
pub enum RelationType {
    ManyToOne(String),
    OneToOne(String),
}

/// A relation as a mathematical value: the target table is a sequence of characters.
pub enum RelationTypeView {
    ManyToOne(Seq<char>),
    OneToOne(Seq<char>),
}

impl View for RelationType {
    type V = RelationTypeView;

    open spec fn view(&self) -> RelationTypeView {
        match self {
            RelationType::ManyToOne(table) => RelationTypeView::ManyToOne(table@),
            RelationType::OneToOne(table) => RelationTypeView::OneToOne(table@),
        }
    }
}

impl RelationTypeView {
    /// The table that the relation points to.
    pub open spec fn target(self) -> Seq<char> {
        match self {
            RelationTypeView::ManyToOne(table) => table,
            RelationTypeView::OneToOne(table) => table,
        }
    }
}

impl Clone for RelationType {
    fn clone(&self) -> (r: RelationType)
        ensures
            r == *self,
    {
        match self {
            RelationType::ManyToOne(table) => RelationType::ManyToOne(table.clone()),
            RelationType::OneToOne(table) => RelationType::OneToOne(table.clone()),
        }
    }
}

impl PartialEq for RelationType {
    fn eq(&self, other: &RelationType) -> (r: bool) {
        match (self, other) {
            (RelationType::ManyToOne(a), RelationType::ManyToOne(b)) => *a == *b,
            (RelationType::OneToOne(a), RelationType::OneToOne(b)) => *a == *b,
            _ => false,
        }
    }
}

impl vstd::std_specs::cmp::PartialEqSpecImpl for RelationType {
    open spec fn obeys_eq_spec() -> bool {
        true
    }

    open spec fn eq_spec(&self, other: &RelationType) -> bool {
        self@ == other@
    }
}

/// The logical type of a column.
#[derive(Debug)]
pub enum ColumnType {
    UUID,
    Int,
    Decimal,
    Text,
    JSON,
    Email,
    Url,
    User,
    Relation(RelationType),
}

/// A column type as a mathematical value.
pub enum ColumnTypeView {
    UUID,
    Int,
    Decimal,
    Text,
    JSON,
    Email,
    Url,
    User,
    Relation(RelationTypeView),
}

impl View for ColumnType {
    type V = ColumnTypeView;

    open spec fn view(&self) -> ColumnTypeView {
        match self {
            ColumnType::UUID => ColumnTypeView::UUID,
            ColumnType::Int => ColumnTypeView::Int,
            ColumnType::Decimal => ColumnTypeView::Decimal,
            ColumnType::Text => ColumnTypeView::Text,
            ColumnType::JSON => ColumnTypeView::JSON,
            ColumnType::Email => ColumnTypeView::Email,
            ColumnType::Url => ColumnTypeView::Url,
            ColumnType::User => ColumnTypeView::User,
            ColumnType::Relation(relation) => ColumnTypeView::Relation(relation@),
        }
    }
}

impl ColumnTypeView {
    /// The name of the storage type that holds a column of this logical type.
    pub open spec fn physical_type(self) -> Seq<char> {
        match self {
            ColumnTypeView::UUID => "uuid"@,
            ColumnTypeView::Int => "bigint"@,
            ColumnTypeView::Decimal => "decimal"@,
            ColumnTypeView::Text => "text"@,
            ColumnTypeView::JSON => "jsonb"@,
            ColumnTypeView::Email => "text"@,
            ColumnTypeView::Url => "text"@,
            ColumnTypeView::User => "bigint"@,
            ColumnTypeView::Relation(_) => "bigint"@,
        }
    }
}

impl Clone for ColumnType {
    fn clone(&self) -> (r: ColumnType)
        ensures
            r == *self,
    {
        match self {
            ColumnType::UUID => ColumnType::UUID,
            ColumnType::Int => ColumnType::Int,
            ColumnType::Decimal => ColumnType::Decimal,
            ColumnType::Text => ColumnType::Text,
            ColumnType::JSON => ColumnType::JSON,
            ColumnType::Email => ColumnType::Email,
            ColumnType::Url => ColumnType::Url,
            ColumnType::User => ColumnType::User,
            ColumnType::Relation(relation) => ColumnType::Relation(relation.clone()),
        }
    }
}

impl PartialEq for ColumnType {
    fn eq(&self, other: &ColumnType) -> (r: bool) {
        match (self, other) {
            (ColumnType::UUID, ColumnType::UUID) => true,
            (ColumnType::Int, ColumnType::Int) => true,
            (ColumnType::Decimal, ColumnType::Decimal) => true,
            (ColumnType::Text, ColumnType::Text) => true,
            (ColumnType::JSON, ColumnType::JSON) => true,
            (ColumnType::Email, ColumnType::Email) => true,
            (ColumnType::Url, ColumnType::Url) => true,
            (ColumnType::User, ColumnType::User) => true,
            (ColumnType::Relation(a), ColumnType::Relation(b)) => *a == *b,
            _ => false,
        }
    }
}

impl vstd::std_specs::cmp::PartialEqSpecImpl for ColumnType {
    open spec fn obeys_eq_spec() -> bool {
        true
    }

    open spec fn eq_spec(&self, other: &ColumnType) -> bool {
        self@ == other@
    }
}

impl ColumnType {
    /// The storage type of this logical type, as it is written in DDL.
    pub fn pg_sql_type(&self) -> (r: String)
        ensures
            r@ == self@.physical_type(),
    {
        match self {
            ColumnType::UUID => String::from_str("uuid"),
            ColumnType::Int => String::from_str("bigint"),
            ColumnType::Decimal => String::from_str("decimal"),
            ColumnType::Text => String::from_str("text"),
            ColumnType::JSON => String::from_str("jsonb"),
            ColumnType::Email => String::from_str("text"),
            ColumnType::Url => String::from_str("text"),
            ColumnType::User => String::from_str("bigint"),
            ColumnType::Relation(_) => String::from_str("bigint"),
        }
    }
}

} // verus!
