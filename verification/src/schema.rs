//! The fourteen table definitions of the schema, and their creation order.

use vstd::prelude::*;

verus! {

/// Identifier of one of the fourteen tables the bootstrapper manages.
#[derive(Clone, Copy, PartialEq, Eq, Structural, Debug)]
pub enum TableId {
    Config,
    Device,
    DeviceCommand,
    Log,
    Port,
    Timer,
    TimerDevice,
    TimerItem,
    TimerLimit,
    User,
    Zone,
    ZoneCommand,
    ZoneCommandAction,
    ZoneCommandIf,
}

/// How many tables the schema has.
pub const TABLE_COUNT: usize = 14;

/// SQL column type as the schema declares it.
#[derive(Clone, Copy, PartialEq, Eq, Structural, Debug)]
pub enum ColumnType {
    Integer,
    Varchar(u32),
    Boolean,
    Time,
}

/// One column of a table definition.
pub struct Column {
    pub name: &'static str,
    pub ty: ColumnType,
    pub primary_key: bool,
    pub not_null: bool,
}

/// Mathematical image of a column: the name as a character sequence.
pub struct ColumnV {
    pub name: Seq<char>,
    pub ty: ColumnType,
    pub primary_key: bool,
    pub not_null: bool,
}

impl View for Column {
    type V = ColumnV;

    open spec fn view(&self) -> ColumnV {
        ColumnV {
            name: self.name@,
            ty: self.ty,
            primary_key: self.primary_key,
            not_null: self.not_null,
        }
    }
}

/// A table definition: its identifier and its columns in declaration order.
pub struct TableDef {
    pub id: TableId,
    pub columns: Vec<Column>,
}

/// Mathematical image of a table definition.
pub struct TableDefV {
    pub id: TableId,
    pub columns: Seq<ColumnV>,
}

impl View for TableDef {
    type V = TableDefV;

    open spec fn view(&self) -> TableDefV {
        TableDefV { id: self.id, columns: self.columns@.map_values(|c: Column| c@) }
    }
}

/// The table created at position `k` of the creation order.
pub open spec fn id_at(k: int) -> TableId {
    if k == 0 {
        TableId::Config
    } else if k == 1 {
        TableId::Device
    } else if k == 2 {
        TableId::DeviceCommand
    } else if k == 3 {
        TableId::Log
    } else if k == 4 {
        TableId::Port
    } else if k == 5 {
        TableId::Timer
    } else if k == 6 {
        TableId::TimerDevice
    } else if k == 7 {
        TableId::TimerItem
    } else if k == 8 {
        TableId::TimerLimit
    } else if k == 9 {
        TableId::User
    } else if k == 10 {
        TableId::Zone
    } else if k == 11 {
        TableId::ZoneCommand
    } else if k == 12 {
        TableId::ZoneCommandAction
    } else {
        TableId::ZoneCommandIf
    }
}

/// The position of a table in the creation order; inverse of `id_at`.
pub open spec fn order_pos(id: TableId) -> int {
    match id {
        TableId::Config => 0,
        TableId::Device => 1,
        TableId::DeviceCommand => 2,
        TableId::Log => 3,
        TableId::Port => 4,
        TableId::Timer => 5,
        TableId::TimerDevice => 6,
        TableId::TimerItem => 7,
        TableId::TimerLimit => 8,
        TableId::User => 9,
        TableId::Zone => 10,
        TableId::ZoneCommand => 11,
        TableId::ZoneCommandAction => 12,
        TableId::ZoneCommandIf => 13,
    }
}

/// `id_at` and `order_pos` are mutually inverse, so the creation order lists
/// each of the fourteen tables exactly once.
pub proof fn lemma_order_bijective()
    ensures
        forall|k: int| 0 <= k < 14 ==> order_pos(#[trigger] id_at(k)) == k,
        forall|id: TableId| id_at(#[trigger] order_pos(id)) == id,
        forall|id: TableId| 0 <= #[trigger] order_pos(id) < 14,
{
}

/// The table's SQL name.
pub open spec fn table_name_spec(id: TableId) -> Seq<char> {
    match id {
        TableId::Config => "config"@,
        TableId::Device => "device"@,
        TableId::DeviceCommand => "device_command"@,
        TableId::Log => "log"@,
        TableId::Port => "port"@,
        TableId::Timer => "timer"@,
        TableId::TimerDevice => "timer_device"@,
        TableId::TimerItem => "timer_item"@,
        TableId::TimerLimit => "timer_limit"@,
        TableId::User => "user"@,
        TableId::Zone => "zone"@,
        TableId::ZoneCommand => "zone_command"@,
        TableId::ZoneCommandAction => "zone_command_action"@,
        TableId::ZoneCommandIf => "zone_command_if"@,
    }
}

/// The table's SQL name, as executable text.
pub fn table_name(id: TableId) -> (r: &'static str)
    ensures
        r@ == table_name_spec(id),
{
    match id {
        TableId::Config => "config",
        TableId::Device => "device",
        TableId::DeviceCommand => "device_command",
        TableId::Log => "log",
        TableId::Port => "port",
        TableId::Timer => "timer",
        TableId::TimerDevice => "timer_device",
        TableId::TimerItem => "timer_item",
        TableId::TimerLimit => "timer_limit",
        TableId::User => "user",
        TableId::Zone => "zone",
        TableId::ZoneCommand => "zone_command",
        TableId::ZoneCommandAction => "zone_command_action",
        TableId::ZoneCommandIf => "zone_command_if",
    }
}

/// Shorthand for a column image.
pub open spec fn colv(name: Seq<char>, ty: ColumnType, primary_key: bool, not_null: bool) -> ColumnV {
    ColumnV { name, ty, primary_key, not_null }
}

/// The integer surrogate primary key every table starts with.
pub open spec fn id_col() -> ColumnV {
    colv("id"@, ColumnType::Integer, true, true)
}

fn col(name: &'static str, ty: ColumnType, primary_key: bool, not_null: bool) -> (c: Column)
    ensures
        c@ == colv(name@, ty, primary_key, not_null),
{
    Column { name, ty, primary_key, not_null }
}

/// Columns of the `config` table.
pub open spec fn config_columns() -> Seq<ColumnV> {
    seq![
        id_col(),
        colv("name"@, ColumnType::Varchar(255), false, false),
        colv("timeZone"@, ColumnType::Varchar(255), false, false),
        colv("path_api"@, ColumnType::Varchar(255), false, false),
        colv("path_gui"@, ColumnType::Varchar(255), false, false),
        colv("webapi_title"@, ColumnType::Varchar(255), false, false),
        colv("webapi_description"@, ColumnType::Varchar(255), false, false),
        colv("webapi_version"@, ColumnType::Varchar(255), false, false),
        colv("webapi_openapi_url"@, ColumnType::Varchar(255), false, false),
        colv("webapi_docs_url"@, ColumnType::Varchar(255), false, false),
        colv("webapi_redoc_url"@, ColumnType::Varchar(255), false, false),
        colv("webapi_key"@, ColumnType::Varchar(255), false, false),
        colv("webapi_host"@, ColumnType::Varchar(255), false, false),
        colv("webapi_port"@, ColumnType::Integer, false, false),
        colv("webapi_workers"@, ColumnType::Integer, false, false),
        colv("nginx_api_host"@, ColumnType::Varchar(255), false, false),
        colv("nginx_api_port"@, ColumnType::Integer, false, false),
        colv("nginx_api_key"@, ColumnType::Varchar(255), false, false),
        colv("nginx_gui_host"@, ColumnType::Varchar(255), false, false),
        colv("nginx_gui_port"@, ColumnType::Integer, false, false),
        colv("nginx_gui_key"@, ColumnType::Varchar(255), false, false),
        colv("git_email"@, ColumnType::Varchar(255), false, false),
        colv("git_name"@, ColumnType::Varchar(255), false, false),
        colv("git_key"@, ColumnType::Varchar(255), false, false),
        colv("hotspod_ssid"@, ColumnType::Varchar(255), false, false),
        colv("hotspod_ip"@, ColumnType::Varchar(255), false, false),
        colv("hotspod_pass"@, ColumnType::Varchar(255), false, false),
        colv("wifi_ssid"@, ColumnType::Varchar(255), false, false),
        colv("wifi_ip"@, ColumnType::Varchar(255), false, false),
        colv("wifi_pass"@, ColumnType::Varchar(255), false, false),
        colv("debug"@, ColumnType::Boolean, false, false),
        colv("log"@, ColumnType::Boolean, false, false),
        colv("verbose"@, ColumnType::Boolean, false, false),
    ]
}

/// The `config` table definition.
pub fn config_def() -> (t: TableDef)
    ensures
        t@.id == TableId::Config,
        t@.columns == config_columns(),
{
    let mut columns: Vec<Column> = Vec::new();
    columns.push(col("id", ColumnType::Integer, true, true));
    columns.push(col("name", ColumnType::Varchar(255), false, false));
    columns.push(col("timeZone", ColumnType::Varchar(255), false, false));
    columns.push(col("path_api", ColumnType::Varchar(255), false, false));
    columns.push(col("path_gui", ColumnType::Varchar(255), false, false));
    columns.push(col("webapi_title", ColumnType::Varchar(255), false, false));
    columns.push(col("webapi_description", ColumnType::Varchar(255), false, false));
    columns.push(col("webapi_version", ColumnType::Varchar(255), false, false));
    columns.push(col("webapi_openapi_url", ColumnType::Varchar(255), false, false));
    columns.push(col("webapi_docs_url", ColumnType::Varchar(255), false, false));
    columns.push(col("webapi_redoc_url", ColumnType::Varchar(255), false, false));
    columns.push(col("webapi_key", ColumnType::Varchar(255), false, false));
    columns.push(col("webapi_host", ColumnType::Varchar(255), false, false));
    columns.push(col("webapi_port", ColumnType::Integer, false, false));
    columns.push(col("webapi_workers", ColumnType::Integer, false, false));
    columns.push(col("nginx_api_host", ColumnType::Varchar(255), false, false));
    columns.push(col("nginx_api_port", ColumnType::Integer, false, false));
    columns.push(col("nginx_api_key", ColumnType::Varchar(255), false, false));
    columns.push(col("nginx_gui_host", ColumnType::Varchar(255), false, false));
    columns.push(col("nginx_gui_port", ColumnType::Integer, false, false));
    columns.push(col("nginx_gui_key", ColumnType::Varchar(255), false, false));
    columns.push(col("git_email", ColumnType::Varchar(255), false, false));
    columns.push(col("git_name", ColumnType::Varchar(255), false, false));
    columns.push(col("git_key", ColumnType::Varchar(255), false, false));
    columns.push(col("hotspod_ssid", ColumnType::Varchar(255), false, false));
    columns.push(col("hotspod_ip", ColumnType::Varchar(255), false, false));
    columns.push(col("hotspod_pass", ColumnType::Varchar(255), false, false));
    columns.push(col("wifi_ssid", ColumnType::Varchar(255), false, false));
    columns.push(col("wifi_ip", ColumnType::Varchar(255), false, false));
    columns.push(col("wifi_pass", ColumnType::Varchar(255), false, false));
    columns.push(col("debug", ColumnType::Boolean, false, false));
    columns.push(col("log", ColumnType::Boolean, false, false));
    columns.push(col("verbose", ColumnType::Boolean, false, false));
    let t = TableDef { id: TableId::Config, columns };
    proof {
        assert(t@.columns =~= config_columns());
    }
    t
}

/// Columns of the `device` table.
pub open spec fn device_columns() -> Seq<ColumnV> {
    seq![
        id_col(),
        colv("zone_id"@, ColumnType::Integer, false, true),
        colv("port_id"@, ColumnType::Integer, false, true),
        colv("power_id"@, ColumnType::Integer, false, true),
        colv("command_id"@, ColumnType::Integer, false, true),
        colv("value"@, ColumnType::Integer, false, true),
        colv("tune"@, ColumnType::Integer, false, true),
        colv("date"@, ColumnType::Time, false, false),
        colv("address"@, ColumnType::Varchar(255), false, false),
        colv("name"@, ColumnType::Varchar(255), false, false),
        colv("description"@, ColumnType::Varchar(255), false, false),
        colv("enable"@, ColumnType::Boolean, false, false),
    ]
}

/// The `device` table definition.
pub fn device_def() -> (t: TableDef)
    ensures
        t@.id == TableId::Device,
        t@.columns == device_columns(),
{
    let mut columns: Vec<Column> = Vec::new();
    columns.push(col("id", ColumnType::Integer, true, true));
    columns.push(col("zone_id", ColumnType::Integer, false, true));
    columns.push(col("port_id", ColumnType::Integer, false, true));
    columns.push(col("power_id", ColumnType::Integer, false, true));
    columns.push(col("command_id", ColumnType::Integer, false, true));
    columns.push(col("value", ColumnType::Integer, false, true));
    columns.push(col("tune", ColumnType::Integer, false, true));
    columns.push(col("date", ColumnType::Time, false, false));
    columns.push(col("address", ColumnType::Varchar(255), false, false));
    columns.push(col("name", ColumnType::Varchar(255), false, false));
    columns.push(col("description", ColumnType::Varchar(255), false, false));
    columns.push(col("enable", ColumnType::Boolean, false, false));
    let t = TableDef { id: TableId::Device, columns };
    proof {
        assert(t@.columns =~= device_columns());
    }
    t
}

/// Columns of the `device_command` table.
pub open spec fn device_command_columns() -> Seq<ColumnV> {
    seq![
        id_col(),
        colv("device_id"@, ColumnType::Integer, false, true),
        colv("name"@, ColumnType::Varchar(255), false, false),
        colv("value_from"@, ColumnType::Integer, false, false),
        colv("value_to"@, ColumnType::Integer, false, false),
        colv("delay"@, ColumnType::Integer, false, false),
        colv("description"@, ColumnType::Varchar(255), false, false),
        colv("reload"@, ColumnType::Boolean, false, false),
        colv("enable"@, ColumnType::Boolean, false, false),
        colv("type"@, ColumnType::Varchar(7), false, true),
    ]
}

/// The `device_command` table definition.
pub fn device_command_def() -> (t: TableDef)
    ensures
        t@.id == TableId::DeviceCommand,
        t@.columns == device_command_columns(),
{
    let mut columns: Vec<Column> = Vec::new();
    columns.push(col("id", ColumnType::Integer, true, true));
    columns.push(col("device_id", ColumnType::Integer, false, true));
    columns.push(col("name", ColumnType::Varchar(255), false, false));
    columns.push(col("value_from", ColumnType::Integer, false, false));
    columns.push(col("value_to", ColumnType::Integer, false, false));
    columns.push(col("delay", ColumnType::Integer, false, false));
    columns.push(col("description", ColumnType::Varchar(255), false, false));
    columns.push(col("reload", ColumnType::Boolean, false, false));
    columns.push(col("enable", ColumnType::Boolean, false, false));
    columns.push(col("type", ColumnType::Varchar(7), false, true));
    let t = TableDef { id: TableId::DeviceCommand, columns };
    proof {
        assert(t@.columns =~= device_command_columns());
    }
    t
}

/// Columns of the `log` table.
pub open spec fn log_columns() -> Seq<ColumnV> {
    seq![
        id_col(),
        colv("date"@, ColumnType::Varchar(255), false, false),
        colv("name"@, ColumnType::Varchar(255), false, false),
        colv("status"@, ColumnType::Boolean, false, false),
        colv("data"@, ColumnType::Varchar(255), false, false),
    ]
}

/// The `log` table definition.
pub fn log_def() -> (t: TableDef)
    ensures
        t@.id == TableId::Log,
        t@.columns == log_columns(),
{
    let mut columns: Vec<Column> = Vec::new();
    columns.push(col("id", ColumnType::Integer, true, true));
    columns.push(col("date", ColumnType::Varchar(255), false, false));
    columns.push(col("name", ColumnType::Varchar(255), false, false));
    columns.push(col("status", ColumnType::Boolean, false, false));
    columns.push(col("data", ColumnType::Varchar(255), false, false));
    let t = TableDef { id: TableId::Log, columns };
    proof {
        assert(t@.columns =~= log_columns());
    }
    t
}

/// Columns of the `port` table.
pub open spec fn port_columns() -> Seq<ColumnV> {
    seq![
        id_col(),
        colv("user_id"@, ColumnType::Integer, false, true),
        colv("name"@, ColumnType::Varchar(255), false, false),
        colv("pin"@, ColumnType::Integer, false, false),
        colv("port"@, ColumnType::Integer, false, false),
        colv("value"@, ColumnType::Integer, false, false),
        colv("description"@, ColumnType::Varchar(255), false, false),
        colv("enable"@, ColumnType::Boolean, false, false),
        colv("protocol"@, ColumnType::Varchar(8), false, true),
        colv("type"@, ColumnType::Varchar(4), false, true),
    ]
}

/// The `port` table definition.
pub fn port_def() -> (t: TableDef)
    ensures
        t@.id == TableId::Port,
        t@.columns == port_columns(),
{
    let mut columns: Vec<Column> = Vec::new();
    columns.push(col("id", ColumnType::Integer, true, true));
    columns.push(col("user_id", ColumnType::Integer, false, true));
    columns.push(col("name", ColumnType::Varchar(255), false, false));
    columns.push(col("pin", ColumnType::Integer, false, false));
    columns.push(col("port", ColumnType::Integer, false, false));
    columns.push(col("value", ColumnType::Integer, false, false));
    columns.push(col("description", ColumnType::Varchar(255), false, false));
    columns.push(col("enable", ColumnType::Boolean, false, false));
    columns.push(col("protocol", ColumnType::Varchar(8), false, true));
    columns.push(col("type", ColumnType::Varchar(4), false, true));
    let t = TableDef { id: TableId::Port, columns };
    proof {
        assert(t@.columns =~= port_columns());
    }
    t
}

/// Columns of the `timer` table.
pub open spec fn timer_columns() -> Seq<ColumnV> {
    seq![
        id_col(),
        colv("user_id"@, ColumnType::Integer, false, true),
        colv("name"@, ColumnType::Varchar(255), false, false),
        colv("description"@, ColumnType::Varchar(255), false, false),
        colv("enable"@, ColumnType::Boolean, false, false),
    ]
}

/// The `timer` table definition.
pub fn timer_def() -> (t: TableDef)
    ensures
        t@.id == TableId::Timer,
        t@.columns == timer_columns(),
{
    let mut columns: Vec<Column> = Vec::new();
    columns.push(col("id", ColumnType::Integer, true, true));
    columns.push(col("user_id", ColumnType::Integer, false, true));
    columns.push(col("name", ColumnType::Varchar(255), false, false));
    columns.push(col("description", ColumnType::Varchar(255), false, false));
    columns.push(col("enable", ColumnType::Boolean, false, false));
    let t = TableDef { id: TableId::Timer, columns };
    proof {
        assert(t@.columns =~= timer_columns());
    }
    t
}

/// Columns of the `timer_device` table.
pub open spec fn timer_device_columns() -> Seq<ColumnV> {
    seq![
        id_col(),
        colv("timer_id"@, ColumnType::Integer, false, true),
        colv("device_id"@, ColumnType::Integer, false, true),
        colv("command_id"@, ColumnType::Integer, false, true),
        colv("description"@, ColumnType::Varchar(255), false, false),
        colv("enable"@, ColumnType::Boolean, false, false),
    ]
}

/// The `timer_device` table definition.
pub fn timer_device_def() -> (t: TableDef)
    ensures
        t@.id == TableId::TimerDevice,
        t@.columns == timer_device_columns(),
{
    let mut columns: Vec<Column> = Vec::new();
    columns.push(col("id", ColumnType::Integer, true, true));
    columns.push(col("timer_id", ColumnType::Integer, false, true));
    columns.push(col("device_id", ColumnType::Integer, false, true));
    columns.push(col("command_id", ColumnType::Integer, false, true));
    columns.push(col("description", ColumnType::Varchar(255), false, false));
    columns.push(col("enable", ColumnType::Boolean, false, false));
    let t = TableDef { id: TableId::TimerDevice, columns };
    proof {
        assert(t@.columns =~= timer_device_columns());
    }
    t
}

/// Columns of the `timer_item` table.
pub open spec fn timer_item_columns() -> Seq<ColumnV> {
    seq![
        id_col(),
        colv("timer_id"@, ColumnType::Integer, false, true),
        colv("name"@, ColumnType::Varchar(255), false, false),
        colv("value_from"@, ColumnType::Varchar(255), false, false),
        colv("value_to"@, ColumnType::Varchar(255), false, false),
        colv("description"@, ColumnType::Varchar(255), false, false),
        colv("enable"@, ColumnType::Boolean, false, false),
    ]
}

/// The `timer_item` table definition.
pub fn timer_item_def() -> (t: TableDef)
    ensures
        t@.id == TableId::TimerItem,
        t@.columns == timer_item_columns(),
{
    let mut columns: Vec<Column> = Vec::new();
    columns.push(col("id", ColumnType::Integer, true, true));
    columns.push(col("timer_id", ColumnType::Integer, false, true));
    columns.push(col("name", ColumnType::Varchar(255), false, false));
    columns.push(col("value_from", ColumnType::Varchar(255), false, false));
    columns.push(col("value_to", ColumnType::Varchar(255), false, false));
    columns.push(col("description", ColumnType::Varchar(255), false, false));
    columns.push(col("enable", ColumnType::Boolean, false, false));
    let t = TableDef { id: TableId::TimerItem, columns };
    proof {
        assert(t@.columns =~= timer_item_columns());
    }
    t
}

/// Columns of the `timer_limit` table.
pub open spec fn timer_limit_columns() -> Seq<ColumnV> {
    seq![
        id_col(),
        colv("device_id"@, ColumnType::Integer, false, true),
        colv("command_from_id"@, ColumnType::Integer, false, true),
        colv("command_to_id"@, ColumnType::Integer, false, true),
        colv("value"@, ColumnType::Integer, false, true),
        colv("description"@, ColumnType::Varchar(255), false, false),
        colv("enable"@, ColumnType::Boolean, false, false),
    ]
}

/// The `timer_limit` table definition.
pub fn timer_limit_def() -> (t: TableDef)
    ensures
        t@.id == TableId::TimerLimit,
        t@.columns == timer_limit_columns(),
{
    let mut columns: Vec<Column> = Vec::new();
    columns.push(col("id", ColumnType::Integer, true, true));
    columns.push(col("device_id", ColumnType::Integer, false, true));
    columns.push(col("command_from_id", ColumnType::Integer, false, true));
    columns.push(col("command_to_id", ColumnType::Integer, false, true));
    columns.push(col("value", ColumnType::Integer, false, true));
    columns.push(col("description", ColumnType::Varchar(255), false, false));
    columns.push(col("enable", ColumnType::Boolean, false, false));
    let t = TableDef { id: TableId::TimerLimit, columns };
    proof {
        assert(t@.columns =~= timer_limit_columns());
    }
    t
}

/// Columns of the `user` table.
pub open spec fn user_columns() -> Seq<ColumnV> {
    seq![
        id_col(),
        colv("name"@, ColumnType::Varchar(255), false, false),
        colv("username"@, ColumnType::Varchar(255), false, false),
        colv("password"@, ColumnType::Varchar(255), false, false),
        colv("key"@, ColumnType::Varchar(255), false, false),
        colv("email"@, ColumnType::Varchar(255), false, false),
        colv("phone"@, ColumnType::Varchar(255), false, false),
        colv("tg_id"@, ColumnType::Varchar(255), false, false),
        colv("enable"@, ColumnType::Boolean, false, false),
    ]
}

/// The `user` table definition.
pub fn user_def() -> (t: TableDef)
    ensures
        t@.id == TableId::User,
        t@.columns == user_columns(),
{
    let mut columns: Vec<Column> = Vec::new();
    columns.push(col("id", ColumnType::Integer, true, true));
    columns.push(col("name", ColumnType::Varchar(255), false, false));
    columns.push(col("username", ColumnType::Varchar(255), false, false));
    columns.push(col("password", ColumnType::Varchar(255), false, false));
    columns.push(col("key", ColumnType::Varchar(255), false, false));
    columns.push(col("email", ColumnType::Varchar(255), false, false));
    columns.push(col("phone", ColumnType::Varchar(255), false, false));
    columns.push(col("tg_id", ColumnType::Varchar(255), false, false));
    columns.push(col("enable", ColumnType::Boolean, false, false));
    let t = TableDef { id: TableId::User, columns };
    proof {
        assert(t@.columns =~= user_columns());
    }
    t
}

/// Columns of the `zone` table.
pub open spec fn zone_columns() -> Seq<ColumnV> {
    seq![
        id_col(),
        colv("user_id"@, ColumnType::Integer, false, true),
        colv("name"@, ColumnType::Varchar(255), false, false),
        colv("description"@, ColumnType::Varchar(255), false, false),
        colv("enable"@, ColumnType::Boolean, false, false),
    ]
}

/// The `zone` table definition.
pub fn zone_def() -> (t: TableDef)
    ensures
        t@.id == TableId::Zone,
        t@.columns == zone_columns(),
{
    let mut columns: Vec<Column> = Vec::new();
    columns.push(col("id", ColumnType::Integer, true, true));
    columns.push(col("user_id", ColumnType::Integer, false, true));
    columns.push(col("name", ColumnType::Varchar(255), false, false));
    columns.push(col("description", ColumnType::Varchar(255), false, false));
    columns.push(col("enable", ColumnType::Boolean, false, false));
    let t = TableDef { id: TableId::Zone, columns };
    proof {
        assert(t@.columns =~= zone_columns());
    }
    t
}

/// Columns of the `zone_command` table.
pub open spec fn zone_command_columns() -> Seq<ColumnV> {
    seq![
        id_col(),
        colv("zone_id"@, ColumnType::Integer, false, true),
        colv("name"@, ColumnType::Varchar(255), false, false),
        colv("description"@, ColumnType::Varchar(255), false, false),
        colv("enable"@, ColumnType::Boolean, false, false),
    ]
}

/// The `zone_command` table definition.
pub fn zone_command_def() -> (t: TableDef)
    ensures
        t@.id == TableId::ZoneCommand,
        t@.columns == zone_command_columns(),
{
    let mut columns: Vec<Column> = Vec::new();
    columns.push(col("id", ColumnType::Integer, true, true));
    columns.push(col("zone_id", ColumnType::Integer, false, true));
    columns.push(col("name", ColumnType::Varchar(255), false, false));
    columns.push(col("description", ColumnType::Varchar(255), false, false));
    columns.push(col("enable", ColumnType::Boolean, false, false));
    let t = TableDef { id: TableId::ZoneCommand, columns };
    proof {
        assert(t@.columns =~= zone_command_columns());
    }
    t
}

/// Columns of the `zone_command_action` table.
pub open spec fn zone_command_action_columns() -> Seq<ColumnV> {
    seq![
        id_col(),
        colv("name"@, ColumnType::Varchar(255), false, false),
        colv("zone_command_id"@, ColumnType::Integer, false, true),
        colv("device_id"@, ColumnType::Integer, false, true),
        colv("command_id"@, ColumnType::Integer, false, false),
        colv("description"@, ColumnType::Varchar(255), false, false),
        colv("enable"@, ColumnType::Boolean, false, false),
    ]
}

/// The `zone_command_action` table definition.
pub fn zone_command_action_def() -> (t: TableDef)
    ensures
        t@.id == TableId::ZoneCommandAction,
        t@.columns == zone_command_action_columns(),
{
    let mut columns: Vec<Column> = Vec::new();
    columns.push(col("id", ColumnType::Integer, true, true));
    columns.push(col("name", ColumnType::Varchar(255), false, false));
    columns.push(col("zone_command_id", ColumnType::Integer, false, true));
    columns.push(col("device_id", ColumnType::Integer, false, true));
    columns.push(col("command_id", ColumnType::Integer, false, false));
    columns.push(col("description", ColumnType::Varchar(255), false, false));
    columns.push(col("enable", ColumnType::Boolean, false, false));
    let t = TableDef { id: TableId::ZoneCommandAction, columns };
    proof {
        assert(t@.columns =~= zone_command_action_columns());
    }
    t
}

/// Columns of the `zone_command_if` table.
pub open spec fn zone_command_if_columns() -> Seq<ColumnV> {
    seq![
        id_col(),
        colv("name"@, ColumnType::Varchar(255), false, false),
        colv("zone_command_id"@, ColumnType::Integer, false, true),
        colv("device_id"@, ColumnType::Integer, false, true),
        colv("command_id"@, ColumnType::Integer, false, true),
        colv("description"@, ColumnType::Varchar(255), false, false),
        colv("enable"@, ColumnType::Boolean, false, false),
    ]
}

/// The `zone_command_if` table definition.
pub fn zone_command_if_def() -> (t: TableDef)
    ensures
        t@.id == TableId::ZoneCommandIf,
        t@.columns == zone_command_if_columns(),
{
    let mut columns: Vec<Column> = Vec::new();
    columns.push(col("id", ColumnType::Integer, true, true));
    columns.push(col("name", ColumnType::Varchar(255), false, false));
    columns.push(col("zone_command_id", ColumnType::Integer, false, true));
    columns.push(col("device_id", ColumnType::Integer, false, true));
    columns.push(col("command_id", ColumnType::Integer, false, true));
    columns.push(col("description", ColumnType::Varchar(255), false, false));
    columns.push(col("enable", ColumnType::Boolean, false, false));
    let t = TableDef { id: TableId::ZoneCommandIf, columns };
    proof {
        assert(t@.columns =~= zone_command_if_columns());
    }
    t
}

/// The columns of the table `id`, as the schema declares them.
pub open spec fn table_columns(id: TableId) -> Seq<ColumnV> {
    match id {
        TableId::Config => config_columns(),
        TableId::Device => device_columns(),
        TableId::DeviceCommand => device_command_columns(),
        TableId::Log => log_columns(),
        TableId::Port => port_columns(),
        TableId::Timer => timer_columns(),
        TableId::TimerDevice => timer_device_columns(),
        TableId::TimerItem => timer_item_columns(),
        TableId::TimerLimit => timer_limit_columns(),
        TableId::User => user_columns(),
        TableId::Zone => zone_columns(),
        TableId::ZoneCommand => zone_command_columns(),
        TableId::ZoneCommandAction => zone_command_action_columns(),
        TableId::ZoneCommandIf => zone_command_if_columns(),
    }
}

/// The definition of the table `id`, as a value.
pub open spec fn table_def_spec(id: TableId) -> TableDefV {
    TableDefV { id, columns: table_columns(id) }
}

/// The definition of the table `id`, as executable data.
pub fn table_def(id: TableId) -> (t: TableDef)
    ensures
        t@ == table_def_spec(id),
{
    match id {
        TableId::Config => config_def(),
        TableId::Device => device_def(),
        TableId::DeviceCommand => device_command_def(),
        TableId::Log => log_def(),
        TableId::Port => port_def(),
        TableId::Timer => timer_def(),
        TableId::TimerDevice => timer_device_def(),
        TableId::TimerItem => timer_item_def(),
        TableId::TimerLimit => timer_limit_def(),
        TableId::User => user_def(),
        TableId::Zone => zone_def(),
        TableId::ZoneCommand => zone_command_def(),
        TableId::ZoneCommandAction => zone_command_action_def(),
        TableId::ZoneCommandIf => zone_command_if_def(),
    }
}

/// The fourteen table identifiers in creation order.
pub fn creation_order() -> (v: Vec<TableId>)
    ensures
        v@.len() == 14,
        forall|k: int| 0 <= k < 14 ==> v@[k] == id_at(k),
{
    let mut v: Vec<TableId> = Vec::new();
    v.push(TableId::Config);
    v.push(TableId::Device);
    v.push(TableId::DeviceCommand);
    v.push(TableId::Log);
    v.push(TableId::Port);
    v.push(TableId::Timer);
    v.push(TableId::TimerDevice);
    v.push(TableId::TimerItem);
    v.push(TableId::TimerLimit);
    v.push(TableId::User);
    v.push(TableId::Zone);
    v.push(TableId::ZoneCommand);
    v.push(TableId::ZoneCommandAction);
    v.push(TableId::ZoneCommandIf);
    v
}

} // verus!
