use schema_bootstrap::engine::Database;
use schema_bootstrap::engine::DbError;
use schema_bootstrap::engine::Value;
use schema_bootstrap::schema::creation_order;
use schema_bootstrap::schema::table_def;
use schema_bootstrap::schema::TableId;

#[test]
fn full_row_inserts_without_parent_rows() {
    // Every NOT NULL column populated: the insert succeeds in every table,
    // even though no referenced parent row exists anywhere (the schema
    // declares no foreign-key constraints).
    for id in creation_order() {
        let mut db = Database::new();
        assert_eq!(db.create_table(table_def(id)), Ok(()));
        let ncols = table_def(id).columns.len();
        let row: Vec<Value> = (0..ncols).map(|k| Value::Int(k as i64 + 1)).collect();
        assert_eq!(db.insert_row(id, row), Ok(()));
        assert_eq!(db.row_count(id), Some(1));
    }
}

#[test]
fn omitting_a_not_null_column_is_rejected() {
    // For each table and each of its NOT NULL columns: a row that leaves that
    // column unpopulated is rejected and nothing is stored.
    for id in creation_order() {
        let def = table_def(id);
        for j in 0..def.columns.len() {
            if !def.columns[j].not_null {
                continue;
            }
            let mut db = Database::new();
            assert_eq!(db.create_table(table_def(id)), Ok(()));
            let row: Vec<Value> = (0..def.columns.len())
                .map(|k| if k == j { Value::Null } else { Value::Int(9) })
                .collect();
            assert_eq!(db.insert_row(id, row), Err(DbError::NotNullViolation(id, j)));
            assert_eq!(db.row_count(id), Some(0));
        }
    }
}

#[test]
fn nullable_columns_accept_null() {
    for id in creation_order() {
        let def = table_def(id);
        let mut db = Database::new();
        assert_eq!(db.create_table(table_def(id)), Ok(()));
        let row: Vec<Value> = def
            .columns
            .iter()
            .map(|c| if c.not_null { Value::Int(3) } else { Value::Null })
            .collect();
        assert_eq!(db.insert_row(id, row), Ok(()));
        assert_eq!(db.row_count(id), Some(1));
    }
}

#[test]
fn wrong_arity_is_rejected() {
    let mut db = Database::new();
    assert_eq!(db.create_table(table_def(TableId::Log)), Ok(()));
    let row = vec![Value::Int(1), Value::Text(String::from("boot"))];
    assert_eq!(db.insert_row(TableId::Log, row), Err(DbError::ArityMismatch(TableId::Log)));
    assert_eq!(db.row_count(TableId::Log), Some(0));
}

#[test]
fn insert_into_absent_table_is_rejected() {
    let mut db = Database::new();
    let row = vec![Value::Int(1)];
    assert_eq!(db.insert_row(TableId::User, row), Err(DbError::NoSuchTable(TableId::User)));
    assert_eq!(db.row_count(TableId::User), None);
}

#[test]
fn mixed_value_kinds_are_stored() {
    let mut db = Database::new();
    assert_eq!(db.create_table(table_def(TableId::Log)), Ok(()));
    let row = vec![
        Value::Int(1),
        Value::Text(String::from("2024-01-01 00:00:00")),
        Value::Text(String::from("startup")),
        Value::Bool(true),
        Value::Null,
    ];
    assert_eq!(db.insert_row(TableId::Log, row), Ok(()));
    assert_eq!(db.row_count(TableId::Log), Some(1));
}
