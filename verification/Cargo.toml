[package]
name = "ai_providers"
version = "0.1.0"
edition = "2021"
publish = false

[dependencies]
anyhow = "1"
async-channel = "2"
async-stream = "0.3"
chrono = { version = "0.4", features = ["serde"] }
futures = "0.3"
futures-util = "0.3"
hex = "0.4"
instant = "0.1"
reqwest = { version = "0.12", default-features = false, features = ["json", "stream"] }
reqwest-eventsource = "0.6"
schemars = { version = "0.8", features = ["chrono"] }
serde = { version = "1", features = ["derive"] }
serde_json = "1"
sha2 = "0.10"
thiserror = "1"
tokio = { version = "1", features = ["rt", "sync"] }
url = "2"
uuid = { version = "1", features = ["v4"] }
