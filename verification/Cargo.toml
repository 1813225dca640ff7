[package]
name = "http_forwarder"
version = "0.1.0"
edition = "2021"
publish = false

[dependencies]
log = "0.4"
native-tls = "0.2"
reqwest = "0.12"
serde = { version = "1", features = ["derive"] }
tokio-tungstenite = { version = "*", features = ["native-tls"] }
