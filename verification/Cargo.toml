[package]
name = "gamecode-mcp"
version = "0.1.0"
edition = "2021"
publish = false

[dependencies]
chrono = { version = "=0.4.45", features = ["serde"] }
flag-rs = "=0.10.0"
home = "=0.5.12"
hostname = "=0.4.2"
rmcp = { version = "=0.1.5", features = ["server", "transport-io"] }
serde = { version = "1", features = ["derive"] }
serde_json = { version = "=1.0.154", features = ["preserve_order", "float_roundtrip"] }
serde_yaml = "0.9"
tokio = { version = "1", features = ["full"] }
tracing = "0.1"
tracing-subscriber = { version = "0.3", features = ["env-filter"] }
