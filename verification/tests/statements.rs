use schema_bootstrap::schema::creation_order;
use schema_bootstrap::schema::table_def;
use schema_bootstrap::schema::table_name;
use schema_bootstrap::schema::TableId;
use schema_bootstrap::sql::create_table_sql;
use schema_bootstrap::sql::drop_table_sql;
use schema_bootstrap::sql::u32_dec;
use schema_bootstrap::Migration;

const EXPECTED_CREATES: [&str; 14] = [
    "CREATE TABLE config (id INTEGER PRIMARY KEY NOT NULL, name VARCHAR(255), timeZone VARCHAR(255), path_api VARCHAR(255), path_gui VARCHAR(255), webapi_title VARCHAR(255), webapi_description VARCHAR(255), webapi_version VARCHAR(255), webapi_openapi_url VARCHAR(255), webapi_docs_url VARCHAR(255), webapi_redoc_url VARCHAR(255), webapi_key VARCHAR(255), webapi_host VARCHAR(255), webapi_port INTEGER, webapi_workers INTEGER, nginx_api_host VARCHAR(255), nginx_api_port INTEGER, nginx_api_key VARCHAR(255), nginx_gui_host VARCHAR(255), nginx_gui_port INTEGER, nginx_gui_key VARCHAR(255), git_email VARCHAR(255), git_name VARCHAR(255), git_key VARCHAR(255), hotspod_ssid VARCHAR(255), hotspod_ip VARCHAR(255), hotspod_pass VARCHAR(255), wifi_ssid VARCHAR(255), wifi_ip VARCHAR(255), wifi_pass VARCHAR(255), debug BOOLEAN, log BOOLEAN, verbose BOOLEAN);",
    "CREATE TABLE device (id INTEGER PRIMARY KEY NOT NULL, zone_id INTEGER NOT NULL, port_id INTEGER NOT NULL, power_id INTEGER NOT NULL, command_id INTEGER NOT NULL, value INTEGER NOT NULL, tune INTEGER NOT NULL, date TIME, address VARCHAR(255), name VARCHAR(255), description VARCHAR(255), enable BOOLEAN);",
    "CREATE TABLE device_command (id INTEGER PRIMARY KEY NOT NULL, device_id INTEGER NOT NULL, name VARCHAR(255), value_from INTEGER, value_to INTEGER, delay INTEGER, description VARCHAR(255), reload BOOLEAN, enable BOOLEAN, type VARCHAR(7) NOT NULL);",
    "CREATE TABLE log (id INTEGER PRIMARY KEY NOT NULL, date VARCHAR(255), name VARCHAR(255), status BOOLEAN, data VARCHAR(255));",
    "CREATE TABLE port (id INTEGER PRIMARY KEY NOT NULL, user_id INTEGER NOT NULL, name VARCHAR(255), pin INTEGER, port INTEGER, value INTEGER, description VARCHAR(255), enable BOOLEAN, protocol VARCHAR(8) NOT NULL, type VARCHAR(4) NOT NULL);",
    "CREATE TABLE timer (id INTEGER PRIMARY KEY NOT NULL, user_id INTEGER NOT NULL, name VARCHAR(255), description VARCHAR(255), enable BOOLEAN);",
    "CREATE TABLE timer_device (id INTEGER PRIMARY KEY NOT NULL, timer_id INTEGER NOT NULL, device_id INTEGER NOT NULL, command_id INTEGER NOT NULL, description VARCHAR(255), enable BOOLEAN);",
    "CREATE TABLE timer_item (id INTEGER PRIMARY KEY NOT NULL, timer_id INTEGER NOT NULL, name VARCHAR(255), value_from VARCHAR(255), value_to VARCHAR(255), description VARCHAR(255), enable BOOLEAN);",
    "CREATE TABLE timer_limit (id INTEGER PRIMARY KEY NOT NULL, device_id INTEGER NOT NULL, command_from_id INTEGER NOT NULL, command_to_id INTEGER NOT NULL, value INTEGER NOT NULL, description VARCHAR(255), enable BOOLEAN);",
    "CREATE TABLE user (id INTEGER PRIMARY KEY NOT NULL, name VARCHAR(255), username VARCHAR(255), password VARCHAR(255), key VARCHAR(255), email VARCHAR(255), phone VARCHAR(255), tg_id VARCHAR(255), enable BOOLEAN);",
    "CREATE TABLE zone (id INTEGER PRIMARY KEY NOT NULL, user_id INTEGER NOT NULL, name VARCHAR(255), description VARCHAR(255), enable BOOLEAN);",
    "CREATE TABLE zone_command (id INTEGER PRIMARY KEY NOT NULL, zone_id INTEGER NOT NULL, name VARCHAR(255), description VARCHAR(255), enable BOOLEAN);",
    "CREATE TABLE zone_command_action (id INTEGER PRIMARY KEY NOT NULL, name VARCHAR(255), zone_command_id INTEGER NOT NULL, device_id INTEGER NOT NULL, command_id INTEGER, description VARCHAR(255), enable BOOLEAN);",
    "CREATE TABLE zone_command_if (id INTEGER PRIMARY KEY NOT NULL, name VARCHAR(255), zone_command_id INTEGER NOT NULL, device_id INTEGER NOT NULL, command_id INTEGER NOT NULL, description VARCHAR(255), enable BOOLEAN);",
];

const EXPECTED_DROPS: [&str; 14] = [
    "DROP TABLE IF EXISTS zone_command_if;",
    "DROP TABLE IF EXISTS zone_command_action;",
    "DROP TABLE IF EXISTS zone_command;",
    "DROP TABLE IF EXISTS zone;",
    "DROP TABLE IF EXISTS user;",
    "DROP TABLE IF EXISTS timer_limit;",
    "DROP TABLE IF EXISTS timer_item;",
    "DROP TABLE IF EXISTS timer_device;",
    "DROP TABLE IF EXISTS timer;",
    "DROP TABLE IF EXISTS port;",
    "DROP TABLE IF EXISTS log;",
    "DROP TABLE IF EXISTS device_command;",
    "DROP TABLE IF EXISTS device;",
    "DROP TABLE IF EXISTS config;",
];

#[test]
fn up_statements_render_the_fourteen_create_tables() {
    let stmts = Migration.up_statements();
    assert_eq!(stmts.len(), 14);
    for (stmt, expected) in stmts.iter().zip(EXPECTED_CREATES.iter()) {
        assert_eq!(stmt, expected);
    }
}

#[test]
fn down_statements_render_the_drops_in_reverse_order() {
    let stmts = Migration.down_statements();
    assert_eq!(stmts.len(), 14);
    for (stmt, expected) in stmts.iter().zip(EXPECTED_DROPS.iter()) {
        assert_eq!(stmt, expected);
    }
}

#[test]
fn create_table_sql_renders_one_definition() {
    let def = table_def(TableId::Zone);
    assert_eq!(
        create_table_sql(&def),
        "CREATE TABLE zone (id INTEGER PRIMARY KEY NOT NULL, user_id INTEGER NOT NULL, \
         name VARCHAR(255), description VARCHAR(255), enable BOOLEAN);"
    );
}

#[test]
fn drop_table_sql_renders_one_statement() {
    assert_eq!(
        drop_table_sql(TableId::ZoneCommandIf),
        "DROP TABLE IF EXISTS zone_command_if;"
    );
}

#[test]
fn table_names_match_the_schema() {
    let expected = [
        "config",
        "device",
        "device_command",
        "log",
        "port",
        "timer",
        "timer_device",
        "timer_item",
        "timer_limit",
        "user",
        "zone",
        "zone_command",
        "zone_command_action",
        "zone_command_if",
    ];
    let order = creation_order();
    assert_eq!(order.len(), 14);
    for (id, name) in order.iter().zip(expected.iter()) {
        assert_eq!(&table_name(*id), name);
    }
}

#[test]
fn decimal_rendering_is_exact() {
    assert_eq!(u32_dec(0), "0");
    assert_eq!(u32_dec(7), "7");
    assert_eq!(u32_dec(10), "10");
    assert_eq!(u32_dec(255), "255");
    assert_eq!(u32_dec(4294967295), "4294967295");
}

#[test]
fn each_definition_starts_with_the_surrogate_key() {
    for id in creation_order() {
        let def = table_def(id);
        assert_eq!(def.id, id);
        let first = &def.columns[0];
        assert_eq!(first.name, "id");
        assert!(first.primary_key);
        assert!(first.not_null);
    }
}
