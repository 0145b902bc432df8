[package]
name = "periodically"
version = "0.1.0"
edition = "2021"
publish = false

[dependencies]
backoff = "*"
chrono = "*"
cron = "*"
log = "*"
tokio = { version = "*", features = ["rt-multi-thread", "time"] }
