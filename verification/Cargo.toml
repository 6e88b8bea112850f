[package]
name = "ursa_minor"
version = "0.1.0"
edition = "2021"
publish = false

[dependencies]
anyhow = "1"
hmac = "0.12"
hyper = { version = "0.14", features = ["full"] }
hyper-tls = "0.5"
jwt = "0.16"
redis = { version = "*", features = ["tokio-comp", "connection-manager"] }
serde = { version = "1", features = ["derive"] }
serde_json = "1"
sha2 = "0.10"
tokio = { version = "1", features = ["full"] }
url = "2"
uuid = { version = "1", features = ["v4", "serde"] }
