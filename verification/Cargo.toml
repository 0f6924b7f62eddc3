[package]
name = "suggestions"
version = "0.1.0"
edition = "2021"
publish = false

[dependencies]
chrono = "=0.4.45"
rand = "=0.8.8"
serenity = { version = "=0.11.7", features = ["collector"] }
tokio = { version = "1", features = ["macros", "rt-multi-thread"] }
