[package]
name = "bifrost"
version = "0.1.0"
edition = "2021"
publish = false

[dependencies]
uuid = { version = "1", features = ["v4", "serde"] }
chrono = { version = "0.4", features = ["serde"] }
shell-words = "1"
serde_json = "1"
humantime = "2"
serde = { version = "1", features = ["derive"] }
serde_yaml = "0.9"
clap = { version = "4", features = ["derive"] }
tokio = { version = "1", features = ["full"] }
notify = "6"
rusqlite = { version = "*", features = ["bundled"] }
fs2 = "0.4"
libc = "0.2"
rmcp = { version = "*", features = ["server", "transport-io", "macros"] }
schemars = "*"
thiserror = "*"

[dev-dependencies]
tempfile = "3"
