[package]
name = "schema_bootstrap"
version = "0.1.0"
edition = "2021"
publish = false

[dependencies]
sea-orm-migration = "*"
async-trait = "*"
