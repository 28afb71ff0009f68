[package]
name = "chat_models"
version = "0.1.0"
edition = "2021"
publish = false

[dependencies]
ipnetwork = { version = "*", features = ["serde"] }
log = "*"
serde = { version = "*", features = ["derive"] }
time = { version = "*", features = ["serde-well-known", "formatting", "parsing"] }
uuid = { version = "*", features = ["serde"] }
validator = "*"
