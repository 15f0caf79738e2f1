[package]
name = "xcon"
version = "0.1.0"
edition = "2021"
publish = false

[dependencies]
rusqlite = { version = "*", features = ["bundled"] }
clap = "*"
serde = { version = "*", features = ["derive"] }
serde_json = "*"
