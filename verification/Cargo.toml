[package]
name = "shion_history"
version = "0.1.0"
edition = "2021"
publish = false

[dependencies]
rusqlite = { version = "*", features = ["bundled"] }
serde = { version = "*", features = ["derive"] }
serde_json = "*"
glob = "*"
home = "*"
tempfile = "*"
parking_lot = "*"
