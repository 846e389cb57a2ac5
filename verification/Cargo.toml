[package]
name = "wamp"
version = "0.1.0"
edition = "2021"
publish = false

[dependencies]
serde_json = "1"
tungstenite = "0.21"
http = "1"
