[package]
name = "rustbot"
version = "0.1.0"
edition = "2021"
publish = false

[dependencies]
serde = { version = "*", features = ["derive"] }
serde_json = "*"
telegram_types = "*"
unicode-width = "0.1"
htmlescape = "*"
sha2 = "0.10"
percent-encoding = "1"
reqwest = { version = "0.12", default-features = false, features = ["json"] }
tokio = { version = "*", features = ["rt-multi-thread", "time", "sync"] }
futures = "*"
log = "*"
env_logger = "*"
dotenv = "*"
signal-hook = "0.3"
parking_lot = "*"
notify = "6"
