[package]
name = "freddie"
version = "0.1.0"
edition = "2021"
publish = false

[dependencies]
tracing = "0.1"
tokio = { version = "1", features = ["sync", "rt", "rt-multi-thread", "net", "time", "macros", "signal"] }
clap = { version = "4", features = ["derive"] }
tokio-tungstenite = "*"
futures-util = "0.3"
http = "1"
tracing-subscriber = { version = "0.3", features = ["fmt", "json", "env-filter"] }
tracing-appender = "0.2"
