[package]
name = "dockteur"
version = "0.1.0"
edition = "2021"
publish = false

[dependencies]
http = "=1.5.0"
reqwest = { version = "=0.13.5", default-features = false, features = ["json"] }
url = "=2.5.8"
tokio = { version = "=1.53.2", features = ["macros", "rt-multi-thread", "time"] }
redis = { version = "=1.7.1", features = ["tokio-comp"] }
log = "=0.4.34"
env_logger = "=0.11.11"
serde = { version = "*", features = ["derive"] }
