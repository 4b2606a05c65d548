[package]
name = "smartedu_downloader"
version = "0.1.0"
edition = "2021"
publish = false

[dependencies]
reqwest = { version = "*", default-features = false, features = ["stream"] }
url = "*"
md5 = "*"
tokio = { version = "*", features = ["full"] }
futures = "*"
serde = { version = "*", features = ["derive"] }
serde_json = "*"
clap = { version = "*", features = ["derive"] }
indicatif = "*"
colored = "*"
log = "*"
env_logger = "*"
chrono = "*"
thiserror = "*"
