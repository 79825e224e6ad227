[package]
name = "ticket_codec"
version = "0.1.0"
edition = "2021"
publish = false

[dependencies]
bson = "=2.15.0"
funty = "=2.0.0"
mongodb = "2"
serenity = "0.12"
tokio = { version = "1", features = ["full"] }
wit-ai = "*"

[dev-dependencies]
chrono = "0.4"
uuid = { version = "1", features = ["v4"] }
