[package]
name = "key_value_service"
version = "0.1.0"
edition = "2021"
publish = false

[dependencies]
anyhow = "=1.0.104"
axum = "=0.7.9"
axum-server = { version = "=0.7.3", features = ["tls-rustls-no-provider"] }
hyper = "=1.12.0"
prost = "=0.13.5"
serde = { version = "=1.0.229", features = ["derive"] }
tokio = { version = "=1.54.1", features = ["full"] }
tonic = { version = "=0.12.3", features = ["tls"] }
tracing = "=0.1.44"
tracing-subscriber = "=0.3.23"

[dev-dependencies]
serde_json = "=1.0.154"
