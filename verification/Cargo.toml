[package]
name = "social_forge"
version = "0.1.0"
edition = "2021"
publish = false

[dependencies]
regex = "=1.13.1"
url = "=2.5.8"
sha2 = "=0.10.9"
base64 = "=0.22.1"
hex = "=0.4.3"
rand = "=0.8.8"
uuid = { version = "=1.29.0", features = ["v4"] }
serde = { version = "=1.0.229", features = ["derive"] }
serde_json = "=1.0.154"
reqwest = { version = "=0.12.28", default-features = false, features = ["json", "rustls-tls", "multipart"] }
tokio = { version = "=1.54.1", features = ["rt-multi-thread", "macros", "time", "sync"] }
chrono = "=0.4.45"
thiserror = "=1.0.69"
anyhow = "=1.0.104"
