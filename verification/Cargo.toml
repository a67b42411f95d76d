[package]
name = "payjoin_receiver"
version = "0.1.0"
edition = "2021"
publish = false

[dependencies]
bitcoin = { version = "0.32", features = ["base64"] }
url = "2"
serde = { version = "1", features = ["derive"] }
serde_json = "1"
