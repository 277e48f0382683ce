[package]
name = "ece_exporter"
version = "0.1.0"
edition = "2021"
publish = false

[dependencies]
axum = "0.5"
chrono = "0.4"
clap = { version = "3", features = ["cargo", "env"] }
env_logger = "0.9"
http-auth-basic = "0.3"
hyper = { version = "0.14", features = ["full"] }
log = "0.4"
metrics = "0.20"
metrics-exporter-prometheus = "0.11"
serde = { version = "1", features = ["derive"] }
serde_json = "1"
tokio = { version = "1", features = ["full"] }
tower-http = { version = "0.3", features = ["trace"] }
