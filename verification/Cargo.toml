[package]
name = "discover_weekly"
version = "0.1.0"
edition = "2021"
publish = false

[dependencies]
actix-web = "4"
awc = { version = "3", features = ["openssl"] }
base64 = "0.22"
chrono = "0.4"
dotenv = "0.15"
env_logger = "0.11"
log = "0.4"
redis = { version = "*", features = ["tokio-comp"] }
serde = { version = "1", features = ["derive"] }
serde_json = "1"
tokio = { version = "1", features = ["sync"] }
urlencoding = "2"
