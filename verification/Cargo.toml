[package]
name = "auramate"
version = "0.1.0"
edition = "2021"
publish = false

[dependencies]
rusqlite = "*"
serde = { version = "1", features = ["derive"] }
serde_json = "1"
