[package]
name = "aichat"
version = "0.1.0"
edition = "2021"
publish = false

[dependencies]
anyhow = "*"
dirs = "*"
eventsource-stream = "*"
futures-util = "*"
inquire = "*"
parking_lot = "*"
reqwest = { version = "*", default-features = false, features = ["json", "stream"] }
serde = { version = "*", features = ["derive"] }
serde_json = "*"
serde_yaml = "*"
tokio = { version = "*", features = ["rt", "time", "signal", "macros"] }
