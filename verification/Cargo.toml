[package]
name = "redis_utils"
version = "0.1.0"
edition = "2021"
publish = false

[dependencies]
redis = { version = "=1.7.1", features = ["tokio-comp"] }
serde = "=1.0.229"
serde_json = { version = "=1.0.151", features = ["float_roundtrip"] }
async-trait = "=0.1.92"
