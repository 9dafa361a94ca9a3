[package]
name = "datetime_core"
version = "0.1.0"
edition = "2021"
publish = false

[dependencies]
time = { version = "*", features = ["local-offset"] }
chrono = "*"
chrono-tz = "*"
regex = "*"
percent-encoding = "*"
serde = { version = "*", features = ["derive"] }
serde_json = "*"
