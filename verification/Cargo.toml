[package]
name = "autosubs"
version = "0.1.0"
edition = "2021"
publish = false

[dependencies]
futures = "=0.3.34"
reqwest = { version = "=0.12.28", features = ["json", "multipart", "blocking"] }
serde = { version = "=1.0.229", features = ["derive"] }
serde_json = "=1.0.154"
tokio = { version = "=1.54.1", features = ["full"] }
tracing = "=0.1.44"
