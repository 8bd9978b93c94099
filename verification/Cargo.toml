[package]
name = "ton_client"
version = "1.0.0"
edition = "2021"
publish = false

[dependencies]
futures = "0.3"
hex = "0.4"
serde_json = "1.0"
tokio = { version = "0.2", features = ["sync"] }
