[package]
name = "tidalrs"
version = "0.1.0"
edition = "2021"
publish = false

[dependencies]
arc-swap = "=1.9.2"
base64 = "=0.23.1"
serde = { version = "=1.0.229", features = ["derive"] }
serde_json = "=1.0.151"
reqwest = { version = "=0.13.5", default-features = false, features = ["json", "form", "query"] }
tokio = { version = "=1.53.2", features = ["sync"] }
stream-download = "=0.24.4"
