[package]
name = "bot_config"
version = "0.1.0"
edition = "2021"
publish = false

[dependencies]
serenity = "*"
tokio = { version = "1", features = ["sync"] }
