[package]
name = "tts_bot"
version = "0.1.0"
edition = "2021"
publish = false

[dependencies]
poise = "0.6"
reqwest = { version = "0.12", default-features = false, features = ["rustls-tls"] }
songbird = { version = "0.4", default-features = false, features = ["gateway", "serenity", "rustls"] }
tokio = { version = "1", features = ["macros", "rt-multi-thread", "sync", "time"] }
tracing = "0.1"
