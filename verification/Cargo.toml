[package]
name = "host_metrics"
version = "0.1.0"
edition = "2021"
publish = false

[dependencies]
axum = "0.7"
humantime = "2"
machine-info = "1"
serde_json = "1"
sysinfo = "0.31"
tokio = { version = "1", features = ["full"] }
tower-http = { version = "0.5", features = ["fs"] }
tracing = "0.1"
tracing-subscriber = "0.3"
