[package]
name = "rig_extra"
version = "0.1.0"
edition = "2021"
publish = false

[dependencies]
serde_json = { version = "=1.0.154", features = ["preserve_order"] }
base64 = "=0.22.1"
serde = { version = "=1.0.229", features = ["derive"] }
tokio = { version = "=1.54.1", features = ["rt", "sync", "macros", "time"] }
futures = "=0.3.34"
tracing = "=0.1.44"
thiserror = "=2.0.21"
anyhow = "=1.0.104"
bytes = "=1.12.1"
tera = { version = "=1.20.1", default-features = false }
reqwest = { version = "=0.12.28", default-features = false, features = ["rustls-tls"] }
reqwest-websocket = "=0.5.1"
rig-core = { version = "=0.31.0", default-features = false, features = ["audio"] }
