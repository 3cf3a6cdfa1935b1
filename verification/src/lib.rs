//! Schema bootstrapper for a home-automation controller database.
//!
//! The library defines the fourteen tables of the schema, renders the SQL
//! statements that create and drop them, and gives an exact model of the
//! lifecycle: applying the schema to a database, reverting it, and the
//! row-level rules (NOT NULL enforcement, no foreign-key constraints) that
//! the declared columns impose.

pub mod engine;
pub mod laws;
pub mod migration;
pub mod schema;
pub mod sql;

pub use migration::Migration;
