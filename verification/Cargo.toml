[package]
name = "stream_reconnect"
version = "0.3.0"
edition = "2021"
publish = false

[dependencies]
futures = "0.3"
log = "0.4"
tokio = { version = "1", features = ["time"] }
tokio-tungstenite = { version = "*", default-features = false, features = ["handshake"] }
