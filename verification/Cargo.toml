[package]
name = "resend_client_rs"
version = "0.1.0"
edition = "2021"
publish = false

[dependencies]
reqwest = "0.11"
serde_json = { version = "1", features = ["preserve_order"] }
url = "2"
