[package]
name = "disrust"
version = "0.1.0"
edition = "2021"
publish = false

[dependencies]
url = "2"
serde_json = "1"
reqwest = { version = "0.11", default-features = false, features = ["blocking", "json", "rustls-tls"] }
tokio-tungstenite = { version = "0.18", features = ["rustls-tls-webpki-roots"] }
crossterm = "0.25"
tui = "0.19"
