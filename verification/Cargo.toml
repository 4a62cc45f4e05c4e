[package]
name = "iiko_server_api_sdk"
version = "0.1.0"
edition = "2021"
publish = false

[dependencies]
reqwest = { version = "=0.13.5", default-features = false, features = ["query", "form"] }
tokio = { version = "=1.53.2", features = ["sync"] }
quick-xml = { version = "=0.42.0", features = ["serialize"] }
serde = { version = "=1.0.229", features = ["derive"] }
serde_json = "=1.0.151"
thiserror = "=2.0.21"
uuid = { version = "=1.27.0", features = ["serde", "v4"] }
