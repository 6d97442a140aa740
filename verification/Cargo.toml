[package]
name = "volume_plugin"
version = "0.1.0"
edition = "2021"
publish = false

[dependencies]
anyhow = "1"
axum = "0.6"
hyper = { version = "0.14", features = ["server", "http1", "tcp"] }
hyperlocal = "0.8"
tokio = { version = "1", features = ["full"] }
tracing = "0.1"

[dev-dependencies]
serde_json = "1"
