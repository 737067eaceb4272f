[package]
name = "hass_rs"
version = "0.1.0"
edition = "2021"
publish = false

[dependencies]
url = "2"
serde = { version = "1", features = ["derive"] }
serde_json = "1"
serde_yaml = "0.9"
tokio = { version = "1", features = ["full"] }
tokio-tungstenite = "0.20"
futures-util = { version = "0.3", features = ["sink"] }
async-trait = "0.1"
