[package]
name = "rust_router"
version = "0.1.0"
edition = "2021"
publish = false

[dependencies]
chrono = { version = "0.4", features = ["serde"] }
dashmap = "5"
futures = "0.3"
hyper = { version = "0.14", features = ["full"] }
metrics = "0.21"
metrics-exporter-prometheus = "0.12"
serde = { version = "1", features = ["derive"] }
serde_json = "1"
tokio = { version = "1", features = ["full"] }
tracing = "0.1"
tracing-subscriber = "0.3"
