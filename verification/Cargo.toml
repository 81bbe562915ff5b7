[package]
name = "blazingrail"
version = "0.1.0"
edition = "2021"
publish = false

[dependencies]
tokio = { version = "1", features = ["full"] }
axum = "*"
axum-prometheus = "*"
metrics = "*"
serde = { version = "1", features = ["derive"] }
serde_json = { version = "1", features = ["raw_value"] }
serde_yaml = "0.9"
clap = { version = "4", features = ["derive", "env"] }
dotenvy = "0.15"
anyhow = "1"
thiserror = "*"
async-trait = "0.1"
futures = "0.3"
rdkafka = "*"
socket2 = "*"
tracing = "0.1"
tracing-subscriber = { version = "0.3", features = ["json", "env-filter"] }
