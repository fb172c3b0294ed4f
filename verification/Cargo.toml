[package]
name = "bigpanda_rs"
version = "0.1.0"
edition = "2021"
publish = false

[dependencies]
hyper = { version = "0.14", features = ["client", "http1", "tcp"] }
hyper-tls = "0.5"
headers = "0.3"

[dev-dependencies]
serde_json = "1.0"
