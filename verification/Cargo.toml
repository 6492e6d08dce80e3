[package]
name = "ramflux-sdk"
version = "0.1.0"
edition = "2021"
publish = false

[dependencies]
blake3 = "1"
hmac = "0.12"
serde = { version = "1", features = ["derive"] }
serde_json = "1"
sha2 = "0.10"
thiserror = "2"
tokio = { version = "1", default-features = false, features = ["rt", "time"] }
tracing = "0.1"
