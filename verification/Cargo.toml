[package]
name = "ws-file-executor"
version = "0.1.0"
edition = "2021"
publish = false

[dependencies]
actix-files = "0.6"
actix-multipart = "*"
actix-web = "4"
actix-ws = "*"
async-trait = "0.1"
env_logger = "*"
log = "0.4"
serde = { version = "1", features = ["derive"] }
thiserror = "1"
tokio = { version = "1", features = ["io-util", "macros", "process", "rt", "sync"] }
uuid = { version = "1", features = ["v4"] }
