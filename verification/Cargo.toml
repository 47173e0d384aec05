[package]
name = "ru_bot"
version = "0.1.0"
edition = "2021"
publish = false

[dependencies]
dotenvy = "0.15"
reqwest = { version = "0.11", features = ["json"] }
serde = { version = "1", features = ["derive"] }
serde_json = "1"
serenity = { version = "0.11", features = ["voice"] }
songbird = "0.3"
tokio = { version = "1", features = ["macros", "rt-multi-thread", "signal"] }
tracing = "0.1"
tracing-subscriber = "0.3"
