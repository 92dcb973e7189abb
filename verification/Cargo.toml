[package]
name = "botcore"
version = "0.1.0"
edition = "2021"
publish = false

[dependencies]
time = "0.3"
serenity = "0.10"
tokio = { version = "1", features = ["macros", "rt-multi-thread", "signal"] }
