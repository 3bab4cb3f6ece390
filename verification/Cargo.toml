[package]
name = "oauth_client"
version = "0.1.0"
edition = "2021"
publish = false

[dependencies]
rand = "*"
data-encoding = "*"
crypto-hash = "*"
serde = { version = "*", features = ["derive"] }
serde_json = "*"
