[package]
name = "relog"
version = "0.1.0"
edition = "2021"
publish = false

[dependencies]
arc-swap = "*"
eyre = "*"
indexmap = { version = "*", features = ["serde"] }
serde = { version = "*", features = ["derive"] }
toml = "*"
tracing = "*"
tracing-appender = "*"
tracing-log = "*"
tracing-subscriber = { version = "*", features = ["env-filter"] }
