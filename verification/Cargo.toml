[package]
name = "rover"
version = "0.1.0"
edition = "2021"
publish = false

[dependencies]
sha2 = "=0.10.9"
rand = "=0.8.8"
uuid = { version = "=1.29.0", features = ["v4"] }
toml = "=0.8.23"
serde = { version = "=1.0.229", features = ["derive"] }
serde_json = "=1.0.154"
chrono = "=0.4.45"
tar = "=0.4.46"
flate2 = "=1.1.10"
libc = "=0.2.191"
rusqlite = { version = "=0.31.0", features = ["bundled"] }
anyhow = "=1.0.104"
thiserror = "=1.0.69"
tokio = { version = "=1.54.1", features = ["full"] }
clap = { version = "=4.6.7", features = ["derive"] }
tracing = "=0.1.44"
tracing-subscriber = { version = "=0.3.23", features = ["env-filter"] }
bore-cli = "*"
