[package]
name = "stacksight"
version = "0.1.0"
edition = "2021"
publish = false

[dependencies]
anyhow = "1"
async-trait = "0.1"
bollard = "0.17"
chrono = "0.4"
clap = { version = "4", features = ["derive", "env"] }
dirs = "5"
futures-util = "0.3"
serde = { version = "1", features = ["derive"] }
serde_json = "1"
shellexpand = "3"
sysinfo = "0.30"
tar = "0.4"
tokio = { version = "1", features = ["full"] }
tokio-tungstenite = "0.24"
toml = "0.8"
tracing = "0.1"
uuid = { version = "1", features = ["v4"] }
