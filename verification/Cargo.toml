[package]
name = "autonomy_core"
version = "0.1.0"
edition = "2021"
publish = false

[dependencies]
base64 = "0.22"
rand = "0.8"
dirs = "5"
serde = { version = "1", features = ["derive"] }
serde_json = "1"
ssh2 = "0.9"
sysinfo = "0.30"
tokio = { version = "1", features = ["rt-multi-thread", "macros", "time", "sync"] }
anyhow = "1"
chrono = "0.4"
uuid = { version = "1", features = ["v4"] }
