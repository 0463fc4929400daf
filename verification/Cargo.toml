[package]
name = "ws_transport"
version = "0.1.0"
edition = "2021"
publish = false

[dependencies]
async-channel = "*"
async-std = "*"
async-tungstenite = { version = "*", features = ["async-std-runtime"] }
futures = "*"
serde = { version = "*", features = ["derive"] }
serde_json = "*"
url = "*"
