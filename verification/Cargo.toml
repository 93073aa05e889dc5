[package]
name = "abstract-ws-tungstenite"
version = "0.1.0"
edition = "2021"
publish = false

[dependencies]
async-std = "1"
async-tls = "0.11"
core-error = "0.0.0"
futures = "0.3"
pin-utils = "0.1"
rustls = "0.19"
smol = "1"
thiserror = "1"
tokio = { version = "1", features = ["io-util"] }
tokio-tungstenite = "0.21"
tungstenite = "0.21"
url = "2"
