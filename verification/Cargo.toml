[package]
name = "pandora"
version = "0.1.0"
edition = "2021"
publish = false

[dependencies]
chrono = "=0.4.45"
sha2 = "=0.10.9"
sha3 = "=0.10.9"
serde = { version = "=1.0.229", features = ["derive"] }
serde_json = "=1.0.154"
toml = "=1.1.8"
uuid = { version = "=1.29.0", features = ["v4"] }
tokio = { version = "1", features = ["time"] }
rand = "0.8"
