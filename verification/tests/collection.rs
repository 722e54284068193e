use librocketbase::model::collection::{
    statement_result, Collection, CollectionError, ColumnChange, ColumnDef, ColumnType, FindById,
    RelationType,
};
use uuid::Uuid;

fn column(id: u128, name: &str, column_type: ColumnType, required: bool, unique: bool) -> ColumnDef {
    ColumnDef { id, name: name.into(), column_type, required, unique }
}

fn text_column(id: u128, name: &str) -> ColumnDef {
    column(id, name, ColumnType::Text, true, true)
}

fn organizations(column_defs: Vec<ColumnDef>) -> Collection {
    Collection { name: "organizations".into(), column_defs }
}

#[test]
fn collection_should_create_create_stmt() {
    let expected_stmt = r#"create table if not exists users( id bigserial primary key, created_at timestamptz not null default now(), updated_at timestamptz, name text unique not null )"#;
    let coll = Collection {
        name: "users".into(),
        column_defs: vec![ColumnDef {
            id: Uuid::new_v4().as_u128(),
            name: "name".into(),
            column_type: ColumnType::Text,
            required: true,
            unique: true,
        }],
    };
    let ct_stmt = coll.create_table_statement();
    assert_eq!(expected_stmt, ct_stmt, "create statement match failed");
}

#[test]
fn tests_should_create_create_stmt() {
    let expected_stmt = r#"create table if not exists users( id bigserial primary key, created_at timestamptz not null default now(), updated_at timestamptz, name text unique not null )"#;
    let coll = Collection {
        name: "users".into(),
        column_defs: vec![ColumnDef {
            id: Uuid::new_v4().as_u128(),
            name: "name".into(),
            column_type: ColumnType::Text,
            required: true,
            unique: true,
        }],
    };
    let ct_stmt = coll.create_table_statement();
    assert_eq!(expected_stmt, ct_stmt, "create statement match failed");
}

#[test]
fn create_statement_is_the_same_when_compiled_twice() {
    let coll = organizations(vec![
        text_column(1, "name"),
        column(2, "owner", ColumnType::User, false, true),
        column(
            3,
            "parent",
            ColumnType::Relation(RelationType::ManyToOne("organizations".into())),
            true,
            false,
        ),
    ]);
    let first = coll.create_table_statement();
    let second = coll.create_table_statement();
    assert_eq!(first.as_bytes(), second.as_bytes());
    let twin = organizations(vec![
        text_column(1, "name"),
        column(2, "owner", ColumnType::User, false, true),
        column(
            3,
            "parent",
            ColumnType::Relation(RelationType::ManyToOne("organizations".into())),
            true,
            false,
        ),
    ]);
    assert_eq!(first, twin.create_table_statement());
}

#[test]
fn create_statement_does_not_depend_on_ids() {
    let first = organizations(vec![
        text_column(Uuid::new_v4().as_u128(), "name"),
        column(Uuid::new_v4().as_u128(), "founded", ColumnType::Int, false, false),
    ]);
    let second = organizations(vec![
        text_column(Uuid::new_v4().as_u128(), "name"),
        column(Uuid::new_v4().as_u128(), "founded", ColumnType::Int, false, false),
    ]);
    assert_eq!(first.create_table_statement(), second.create_table_statement());
    assert_eq!(
        first.create_table_statement(),
        "create table if not exists organizations( id bigserial primary key, created_at timestamptz not null default now(), updated_at timestamptz, name text unique not null,founded bigint )"
    );
}

#[test]
fn create_statement_joins_columns_with_commas() {
    let coll = organizations(vec![
        text_column(1, "name"),
        column(2, "owner", ColumnType::User, false, true),
        column(
            3,
            "parent",
            ColumnType::Relation(RelationType::ManyToOne("organizations".into())),
            true,
            false,
        ),
    ]);
    assert_eq!(
        coll.create_table_statement(),
        "create table if not exists organizations( id bigserial primary key, created_at timestamptz not null default now(), updated_at timestamptz, name text unique not null,owner bigint unique references users(id),parent bigint not null references organizations(id) )"
    );
}

#[test]
fn create_statement_without_columns() {
    let coll = organizations(vec![]);
    assert_eq!(
        coll.create_table_statement(),
        "create table if not exists organizations( id bigserial primary key, created_at timestamptz not null default now(), updated_at timestamptz,  )"
    );
}

#[test]
fn create_statement_is_guarded_by_if_not_exists() {
    let coll = organizations(vec![text_column(Uuid::new_v4().as_u128(), "name")]);
    let first = coll.create_table_statement();
    let second = coll.create_table_statement();
    assert!(first.starts_with("create table if not exists organizations("));
    assert_eq!(first, second);
}

#[test]
fn rename_keeps_the_column() {
    let name_id = Uuid::new_v4().as_u128();
    let coll = organizations(vec![text_column(name_id, "name")]);
    let new_def = organizations(vec![text_column(name_id, "name_new")]);
    let changes = coll.column_changes(&new_def).expect("a rename is supported");
    assert_eq!(changes.len(), 1);
    match &changes[0] {
        ColumnChange::RenameColumn(from, to) => {
            assert_eq!(from, "name");
            assert_eq!(to, "name_new");
        }
        other => panic!("expected a rename, found {:?}", other),
    }
    assert!(!changes.iter().any(|change| matches!(change, ColumnChange::AddColumn(_))));
    assert_eq!(
        coll.update_statement(&new_def),
        Ok("alter table organizations rename column name to name_new".to_string())
    );
}

#[test]
fn new_column_is_added() {
    let name_id = Uuid::new_v4().as_u128();
    let website_id = name_id.wrapping_add(1);
    let coll = organizations(vec![text_column(name_id, "name")]);
    let new_def =
        organizations(vec![text_column(name_id, "name"), text_column(website_id, "website")]);
    let changes = coll.column_changes(&new_def).expect("an addition is supported");
    assert_eq!(changes.len(), 1);
    match &changes[0] {
        ColumnChange::AddColumn(added) => assert_eq!(**added, new_def.column_defs[1]),
        other => panic!("expected an addition, found {:?}", other),
    }
    assert_eq!(
        coll.update_statement(&new_def),
        Ok("alter table organizations add column website text unique not null".to_string())
    );
}

#[test]
fn diff_with_itself_is_empty() {
    let coll = organizations(vec![
        text_column(10, "name"),
        column(11, "owner", ColumnType::User, false, false),
        column(
            12,
            "head",
            ColumnType::Relation(RelationType::OneToOne("people".into())),
            true,
            false,
        ),
    ]);
    let changes = coll.column_changes(&coll).expect("nothing changed");
    assert!(changes.is_empty());
    let empty = organizations(vec![]);
    assert!(empty.column_changes(&empty).expect("nothing changed").is_empty());
}

#[test]
fn diff_with_itself_where_an_id_stands_twice() {
    let same = organizations(vec![text_column(1, "name"), text_column(1, "name")]);
    assert!(same.column_changes(&same).expect("equal columns").is_empty());
    let differing = organizations(vec![text_column(1, "name"), text_column(1, "title")]);
    let changes = differing.column_changes(&differing).expect("a rename");
    assert_eq!(changes.len(), 1);
    assert!(matches!(&changes[0], ColumnChange::RenameColumn(from, to) if from == "name" && to == "title"));
}

#[test]
fn update_without_changes_has_no_clause() {
    let coll = organizations(vec![text_column(1, "name")]);
    assert_eq!(coll.update_statement(&coll), Ok("alter table organizations ".to_string()));
}

#[test]
fn changes_come_in_the_order_of_the_new_columns() {
    let coll = organizations(vec![text_column(1, "name"), text_column(2, "website")]);
    let new_def = organizations(vec![
        column(5, "founded", ColumnType::Int, false, false),
        text_column(2, "homepage"),
        text_column(1, "name"),
        column(
            6,
            "owner",
            ColumnType::Relation(RelationType::OneToOne("people".into())),
            true,
            false,
        ),
    ]);
    let changes = coll.column_changes(&new_def).expect("additions and a rename");
    assert_eq!(changes.len(), 3);
    assert!(matches!(&changes[0], ColumnChange::AddColumn(added) if added.id == 5));
    assert!(matches!(&changes[1], ColumnChange::RenameColumn(from, to) if from == "website" && to == "homepage"));
    assert!(matches!(&changes[2], ColumnChange::AddColumn(added) if added.id == 6));
    assert_eq!(
        coll.update_statement(&new_def),
        Ok("alter table organizations add column founded bigint,rename column website to homepage,add column owner bigint unique not null references people(id)".to_string())
    );
    assert_eq!(coll.alter_table_statement(&changes), coll.update_statement(&new_def).unwrap());
}

#[test]
fn altered_column_is_invalid() {
    let coll = organizations(vec![text_column(1, "name")]);
    let retyped = organizations(vec![column(1, "name", ColumnType::Int, true, true)]);
    assert_eq!(coll.column_changes(&retyped).err(), Some(CollectionError::InvalidSchema));
    assert_eq!(coll.update_statement(&retyped), Err(CollectionError::InvalidSchema));
    let optional = organizations(vec![column(1, "name", ColumnType::Text, false, true)]);
    assert_eq!(coll.update_statement(&optional), Err(CollectionError::InvalidSchema));
    let repeated = organizations(vec![column(1, "name", ColumnType::Text, true, false)]);
    assert_eq!(coll.update_statement(&repeated), Err(CollectionError::InvalidSchema));
    let renamed_and_retyped = organizations(vec![column(1, "title", ColumnType::Email, true, true)]);
    assert_eq!(coll.update_statement(&renamed_and_retyped), Err(CollectionError::InvalidSchema));
    let retargeted_old = organizations(vec![column(
        2,
        "parent",
        ColumnType::Relation(RelationType::ManyToOne("organizations".into())),
        true,
        false,
    )]);
    let retargeted_new = organizations(vec![column(
        2,
        "parent",
        ColumnType::Relation(RelationType::ManyToOne("groups".into())),
        true,
        false,
    )]);
    assert_eq!(
        retargeted_old.update_statement(&retargeted_new),
        Err(CollectionError::InvalidSchema)
    );
}

#[test]
fn removed_column_is_invalid() {
    let coll = organizations(vec![text_column(1, "name"), text_column(2, "website")]);
    let shorter = organizations(vec![text_column(1, "name")]);
    assert_eq!(coll.column_changes(&shorter).err(), Some(CollectionError::InvalidSchema));
    assert_eq!(coll.update_statement(&shorter), Err(CollectionError::InvalidSchema));
    let replaced = organizations(vec![text_column(1, "name"), text_column(3, "website")]);
    assert_eq!(coll.update_statement(&replaced), Err(CollectionError::InvalidSchema));
    let none = organizations(vec![]);
    assert_eq!(coll.update_statement(&none), Err(CollectionError::InvalidSchema));
}

#[test]
fn alter_statement_uses_the_old_name() {
    let coll = Collection { name: "orgs".into(), column_defs: vec![] };
    let new_def = Collection {
        name: "organizations".into(),
        column_defs: vec![column(1, "name", ColumnType::Text, false, false)],
    };
    assert_eq!(coll.update_statement(&new_def), Ok("alter table orgs add column name text".to_string()));
}

#[test]
fn alter_clauses_of_single_changes() {
    let website = column(9, "website", ColumnType::Url, true, false);
    assert_eq!(
        ColumnChange::AddColumn(&website).get_alter_statement(),
        "add column website text not null"
    );
    assert_eq!(
        ColumnChange::RenameColumn("name".into(), "name_new".into()).get_alter_statement(),
        "rename column name to name_new"
    );
    let owner = column(
        4,
        "owner",
        ColumnType::Relation(RelationType::ManyToOne("people".into())),
        false,
        true,
    );
    assert_eq!(
        ColumnChange::AddColumn(&owner).get_alter_statement(),
        "add column owner bigint references people(id)"
    );
}

#[test]
fn alter_statement_of_given_changes() {
    let coll = organizations(vec![]);
    let website = text_column(9, "website");
    let changes = vec![
        ColumnChange::RenameColumn("a".into(), "b".into()),
        ColumnChange::AddColumn(&website),
    ];
    assert_eq!(
        coll.alter_table_statement(&changes),
        "alter table organizations rename column a to b,add column website text unique not null"
    );
    assert_eq!(coll.alter_table_statement(&vec![]), "alter table organizations ");
}

#[test]
fn executor_outcome_becomes_the_result() {
    assert_eq!(statement_result(Ok(0)), Ok(()));
    assert_eq!(statement_result(Ok(1)), Ok(()));
    assert_eq!(statement_result(Ok(u64::MAX)), Ok(()));
    assert_eq!(statement_result(Err(())), Err(CollectionError::ExecutionFailed));
    assert_ne!(CollectionError::ExecutionFailed, CollectionError::InvalidSchema);
}

#[test]
fn find_def_gives_the_first_with_the_id() {
    let defs = vec![text_column(1, "name"), text_column(2, "website"), text_column(2, "homepage")];
    assert_eq!(defs.find_def(1).map(|cd| cd.name.as_str()), Some("name"));
    assert_eq!(defs.find_def(2).map(|cd| cd.name.as_str()), Some("website"));
    assert!(defs.find_def(3).is_none());
    let none: Vec<ColumnDef> = vec![];
    assert!(none.find_def(1).is_none());
    let id = Uuid::new_v4().as_u128();
    let minted = vec![text_column(id, "name")];
    assert_eq!(minted.find_def(id), Some(&minted[0]));
}
