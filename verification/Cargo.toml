[package]
name = "rrr_proxy"
version = "0.1.0"
edition = "2021"
publish = false

[dependencies]
uuid = { version = "1", features = ["v4"] }
anyhow = "1"
axum = "0.8"
axum-macros = "0.5"
futures = "0.3"
futures-channel = "0.3"
log = "0.4"
metrics = "0.24"
metrics-exporter-prometheus = { version = "0.16", default-features = false }
serde = { version = "1", features = ["derive"] }
serde_json = "1"
signal-hook = "0.3"
signal-hook-tokio = { version = "0.3", features = ["futures-v0_3"] }
sysinfo = "0.33"
tokio = { version = "1", features = ["full"] }
tokio-tungstenite = "0.26"
tungstenite = "0.26"
tower = { version = "0.5", features = ["full"] }
tower-http = { version = "0.6", features = ["trace"] }
tracing = "0.1"
tracing-subscriber = { version = "0.3", features = ["env-filter"] }
