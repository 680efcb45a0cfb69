[package]
name = "entity_store"
version = "0.1.0"
edition = "2021"
publish = false

[dependencies]
slotmap = "1.0"
parking_lot = "0.12"
anyhow = "1"
log = "0.4"
futures = "0.3"
smol = "1"
