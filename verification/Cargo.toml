[package]
name = "pullomatic"
version = "0.1.0"
edition = "2021"
publish = false

[dependencies]
anyhow = "1"
axum = "0.8"
clap = { version = "4", features = ["derive"] }
futures = "0.3"
git2 = { version = "0.19", default-features = false }
hex = "0.4"
hmac = "0.12"
humantime-serde = "1"
json = "0.12"
serde = { version = "1", features = ["derive"] }
serde_yaml = "0.9"
sha1 = "0.10"
tokio = { version = "1", features = ["macros", "rt-multi-thread", "sync", "time", "fs", "process", "signal", "io-util", "net"] }
tokio-util = { version = "0.7", features = ["rt"] }
tracing = "0.1"
tracing-subscriber = "0.3"
