[package]
name = "binance_common"
version = "0.1.0"
edition = "2021"
publish = false

[dependencies]
derive_builder = "0.20"
httparse = "1"
reqwest = { version = "0.12", default-features = false }
serde = { version = "1", features = ["derive"] }
serde_json = "1"
thiserror = "2"
tokio-tungstenite = { version = "0.26", features = ["rustls-tls-webpki-roots"] }
tracing = "0.1"
url = "2"
