[package]
name = "tgbot"
version = "0.1.0"
edition = "2021"
publish = false

[dependencies]
serde = { version = "1", features = ["derive"] }
serde_json = "1"
chrono = "0.4"
futures = "0.1"
hyper = "0.12"
hyper-tls = "0.3"
tokio = "0.1"
