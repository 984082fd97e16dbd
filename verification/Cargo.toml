[package]
name = "grpc_alarms"
version = "0.1.0"
edition = "2021"
publish = false

[dependencies]
chrono = "0.4"
ringmap = "*"
tokio = { version = "1", features = ["full"] }
tokio-stream = "*"
tokio-util = { version = "*", features = ["time"] }
futures = "0.3"
tonic = "*"
tracing = "0.1"
tracing-subscriber = "0.3"
anyhow = "1"
serde = { version = "1", features = ["derive"] }
serde_json = "1"
redis = { version = "*", default-features = false, features = ["tokio-comp", "streams"] }
