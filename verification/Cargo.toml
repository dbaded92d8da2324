[package]
name = "mediaflow"
version = "0.1.0"
edition = "2021"
publish = false

[dependencies]
chrono = "=0.4.45"
dirs = "=7.0.0"
dotenvy = "*"
serde = { version = "=1.0.229", features = ["derive"] }
serde_json = "=1.0.151"
