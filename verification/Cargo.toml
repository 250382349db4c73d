[package]
name = "gateway_client"
version = "0.1.0"
edition = "2021"
publish = false

[dependencies]
http = "1"
rand = "0.8"
tokio-tungstenite = "*"
serde = { version = "1", features = ["derive"] }
serde_json = "1"
tokio = { version = "1", features = ["macros", "rt", "time", "sync", "net"] }
futures-util = "0.3"
