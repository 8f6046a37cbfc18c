[package]
name = "scheduler_backing"
version = "0.1.0"
edition = "2021"
publish = false

[dependencies]
chrono = { version = "0.4", features = ["serde"] }
serde = { version = "1", features = ["derive"] }
serde_json = "1"
anyhow = "1"
async-trait = "0.1"
async-stream = "0.3"
tokio-stream = "0.1"
log = "0.4"
tracing = "0.1"
http = "0.2"
redis = { version = "0.22", features = ["tokio-comp"] }
sqlx = { version = "0.6", features = ["sqlite", "runtime-tokio-rustls", "chrono"] }
aws-config = "0.51"
aws-sdk-dynamodb = "0.21"
