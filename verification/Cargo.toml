[package]
name = "chatroom"
version = "0.1.0"
edition = "2021"
publish = false

[dependencies]
sha2 = "0.10"
hex = "0.4"
serde = { version = "1", features = ["derive"] }
serde_json = "1"
async-std = { version = "1", features = ["attributes"] }
futures = "0.3"
druid = "0.8"
