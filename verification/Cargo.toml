[package]
name = "mykobo_rs"
version = "0.1.0"
edition = "2021"
publish = false

[dependencies]
aws-sdk-sqs = { version = "1", default-features = false }
bigdecimal = { version = "0.4", features = ["serde"] }
chrono = { version = "0.4", features = ["serde"] }
futures = "0.3"
jsonwebtoken = { version = "10", features = ["rust_crypto"] }
log = "0.4"
once_cell = "1"
rdkafka = "0.38"
reqwest = { version = "0.12", default-features = false, features = ["json"] }
serde = { version = "1", features = ["derive"] }
serde_json = "1"
serde_with = "3"
serde_yaml = "0.9"
thiserror = "2"
tokio = { version = "1", features = ["time", "sync", "rt", "macros"] }
uuid = { version = "1", features = ["v4"] }
