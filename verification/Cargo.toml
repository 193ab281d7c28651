[package]
name = "bevy_discord"
version = "0.1.0"
edition = "2021"
publish = false

[dependencies]
serenity = { version = "0.12", features = ["cache"] }
discord-sdk = "*"
flume = "0.11"
bevy_app = "*"
bevy_ecs = "*"
tokio = { version = "1", features = ["rt-multi-thread"] }
async-trait = "0.1"
tracing = "0.1"
