[package]
name = "ghostwire"
version = "0.1.0"
edition = "2021"
publish = false

[dependencies]
anyhow = "1"
axum = { version = "0.7", features = ["ws"] }
base64 = "0.22"
chrono = "0.4"
clap = { version = "4", features = ["derive"] }
crossterm = "*"
hostname = "*"
lazy_static = "1"
local-ip-address = "*"
ratatui = "*"
reqwest = { version = "0.12", default-features = false, features = ["json"] }
serde = { version = "1", features = ["derive"] }
serde_json = "1"
tokio = { version = "1", features = ["full"] }
toml = "*"
tower-http = { version = "*", features = ["cors"] }
tracing = "0.1"
tracing-subscriber = "0.3"
uuid = { version = "1", features = ["v4"] }
