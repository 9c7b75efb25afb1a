[package]
name = "websocket"
version = "0.1.0"
edition = "2021"
publish = false

[dependencies]
base64 = "0.22"
env_logger = "0.11"
log = "0.4"
rand = "0.8"
serde = { version = "1", features = ["derive"] }
serde_json = "1"
sha1 = "0.10"
tokio = { version = "1", features = ["rt-multi-thread", "macros", "net", "sync", "time", "io-util"] }
toml = "0.8"
web-socket = "*"
