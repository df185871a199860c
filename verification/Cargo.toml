[package]
name = "quic_bridge"
version = "0.1.0"
edition = "2021"
publish = false

[dependencies]
config = { version = "0.13", default-features = false, features = ["toml"] }
futures = "=0.3.34"
quinn = "=0.8.5"
rustls = "=0.20.9"
rustls-pemfile = "=1.0.4"
serde = { version = "1", features = ["derive"] }
serde_json = { version = "=1.0.154", features = ["preserve_order"] }
tokio = { version = "=1.54.1", features = ["rt-multi-thread", "sync", "time", "macros", "fs", "io-util"] }
tracing = "0.1"
