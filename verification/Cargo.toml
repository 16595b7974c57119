[package]
name = "openworld_core"
version = "0.1.0"
edition = "2021"
publish = false

[dependencies]
serde_json = "1"
serde = { version = "1", features = ["derive"] }
dirs = "*"
base64 = "*"
ring = "*"
chrono = "*"
uuid = { version = "*", features = ["v4"] }
rusqlite = { version = "*", features = ["bundled"] }
reqwest = { version = "*", default-features = false, features = ["json"] }
tokio = { version = "*", features = ["rt", "time", "macros"] }
sysinfo = "*"
