[package]
name = "flashnotes"
version = "0.1.0"
edition = "2021"
publish = false

[dependencies]
rusqlite = { version = "=0.40.2", features = ["bundled"] }
chrono = "=0.4.45"
uuid = { version = "=1.27.0", features = ["v4"] }
parking_lot = "=0.12.5"
serde = { version = "=1.0.229", features = ["derive"] }
serde_json = "*"
