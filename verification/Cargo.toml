[package]
name = "dstorage"
version = "0.1.0"
edition = "2021"
publish = false

[dependencies]
rusqlite = { version = "0.24", features = ["bundled"] }
tdn_types = "*"
