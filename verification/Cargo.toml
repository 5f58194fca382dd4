[package]
name = "comemory"
version = "0.1.0"
edition = "2021"
publish = false

[dependencies]
time = { version = "0.3", features = ["formatting"] }
rusqlite = { version = "*", features = ["bundled"] }
sqlite-vec = "*"
serde = { version = "1", features = ["derive"] }
serde_json = "1"
