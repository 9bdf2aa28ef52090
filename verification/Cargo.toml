[package]
name = "sillymic-host"
version = "0.1.0"
edition = "2021"
publish = false

[dependencies]
anyhow = "1"
audiopus = "0.2"
axum = { version = "0.7", features = ["ws"] }
bytes = "1"
clap = { version = "4", features = ["derive"] }
cpal = "0.15"
futures = "0.3"
local-ip-address = "0.6"
rand = "0.8"
serde = { version = "1", features = ["derive"] }
serde_json = "1"
tokio = { version = "1", features = ["full"] }
tracing = "0.1"
tracing-subscriber = { version = "0.3", features = ["env-filter"] }
uuid = { version = "1", features = ["v4", "serde"] }
webrtc = "0.11"
