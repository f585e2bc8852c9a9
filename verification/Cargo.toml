[package]
name = "trading_core"
version = "0.1.0"
edition = "2021"
publish = false

[dependencies]
env_logger = "0.10"
futures = "0.3"
log = "0.4"
thiserror = "1"
tokio = { version = "1", features = ["macros", "net", "rt", "sync"] }
tokio-stream = "0.1"
tokio-util = { version = "0.7", features = ["codec"] }
