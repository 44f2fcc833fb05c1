[package]
name = "tencentcloud_sdk_sms"
version = "0.1.0"
edition = "2021"
publish = false

[dependencies]
chrono = "0.4"
crypto-hash = "0.3"
hex = "0.4"
hmac = "0.12"
sha2 = "0.10"
serde = { version = "1", features = ["derive"] }
serde_json = "1"
reqwest = { version = "0.11", features = ["json"] }
