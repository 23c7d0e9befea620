[package]
name = "congress_rolls"
version = "0.1.0"
edition = "2021"
publish = false

[dependencies]
indicatif = "0.17"
lazy_static = "1"
reqwest = "*"
rusqlite = { version = "*", features = ["bundled"] }
serde = { version = "1", features = ["derive"] }
serde_json = "1"
sha2 = "0.10"
tokio = { version = "1", features = ["macros", "rt-multi-thread", "sync"] }
walkdir = "2"
