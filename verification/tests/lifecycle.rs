use schema_bootstrap::engine::Database;
use schema_bootstrap::engine::DbError;
use schema_bootstrap::schema::creation_order;
use schema_bootstrap::schema::table_def;
use schema_bootstrap::schema::TableId;
use schema_bootstrap::schema::TABLE_COUNT;
use schema_bootstrap::Migration;

#[test]
fn apply_fresh_creates_fourteen_tables() {
    let mut db = Database::new();
    assert_eq!(Migration.apply(&mut db), Ok(()));
    assert_eq!(db.table_count(), TABLE_COUNT);
    for id in creation_order() {
        assert!(db.has_table(id));
        assert_eq!(db.row_count(id), Some(0));
    }
}

#[test]
fn revert_after_apply_removes_all_tables() {
    let mut db = Database::new();
    assert_eq!(Migration.apply(&mut db), Ok(()));
    Migration.revert(&mut db);
    assert_eq!(db.table_count(), 0);
    for id in creation_order() {
        assert!(!db.has_table(id));
    }
}

#[test]
fn revert_on_empty_database_succeeds() {
    let mut db = Database::new();
    Migration.revert(&mut db);
    assert_eq!(db.table_count(), 0);
    Migration.revert(&mut db);
    assert_eq!(db.table_count(), 0);
}

#[test]
fn apply_twice_fails_with_table_exists() {
    let mut db = Database::new();
    assert_eq!(Migration.apply(&mut db), Ok(()));
    assert_eq!(
        Migration.apply(&mut db),
        Err(DbError::TableExists(TableId::Config))
    );
    assert_eq!(db.table_count(), 14);
    for id in creation_order() {
        assert_eq!(db.row_count(id), Some(0));
    }
}

#[test]
fn round_trip_restores_initial_state() {
    let mut db = Database::new();
    assert_eq!(db.table_count(), 0);
    assert_eq!(Migration.apply(&mut db), Ok(()));
    Migration.revert(&mut db);
    assert_eq!(db.table_count(), 0);
    for id in creation_order() {
        assert!(!db.has_table(id));
    }
}

#[test]
fn apply_stops_at_first_existing_table() {
    let mut db = Database::new();
    assert_eq!(db.create_table(table_def(TableId::Device)), Ok(()));
    assert_eq!(
        Migration.apply(&mut db),
        Err(DbError::TableExists(TableId::Device))
    );
    // config comes before device in the creation order, so it was created;
    // nothing after device was.
    assert!(db.has_table(TableId::Config));
    assert!(db.has_table(TableId::Device));
    assert_eq!(db.table_count(), 2);
    assert!(!db.has_table(TableId::DeviceCommand));
    assert!(!db.has_table(TableId::ZoneCommandIf));
}
