[package]
name = "discord_core"
version = "0.1.0"
edition = "2021"
publish = false

[dependencies]
url = "2"
urlencoding = "2"
percent-encoding = "2"
serde = { version = "1", features = ["derive"] }
serde_json = "1"
tokio = { version = "1", features = ["macros", "rt", "sync", "time"] }
hyper = { version = "0.14", features = ["client", "http1", "http2", "tcp"] }
futures-channel = "0.3"
futures-util = "0.3"
