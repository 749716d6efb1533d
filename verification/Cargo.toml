[package]
name = "blockcraft"
version = "0.1.0"
edition = "2021"
publish = false

[dependencies]
serde = { version = "1", features = ["derive"] }
serde_json = "1"
chrono = "0.4"
rusqlite = { version = "*", features = ["bundled"] }
reqwest = { version = "0.12", features = ["json"] }
