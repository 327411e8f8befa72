[package]
name = "mcp_supervisor"
version = "0.1.0"
edition = "2021"
publish = false

[dependencies]
backoff = "0.4"
keyring = "3"
serde = { version = "1", features = ["derive"] }
serde_json = "1"
thiserror = "1"
tokio = { version = "1", features = ["process", "sync", "time", "rt"] }
