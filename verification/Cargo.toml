[package]
name = "binance_connect"
version = "0.1.0"
edition = "2021"
publish = false

[dependencies]
async-std = "1"
log = "0.4"
reqwest = { version = "0.11", features = ["blocking"] }
serde = { version = "1", features = ["derive"] }
serde_json = "1"
strum = "0.25"
strum_macros = "0.25"
thiserror = "1"
tungstenite = { version = "0.21", features = ["native-tls"] }
url = "2"
