[package]
name = "helpline"
version = "0.1.0"
edition = "2021"
publish = false

[dependencies]
anyhow = "=1.0.104"
base64 = "=0.21.7"
chrono = { version = "=0.4.45", default-features = false, features = ["clock"] }
futures = "0.3"
geo = "=0.28.0"
hmac = "=0.12.1"
log = "=0.4.34"
pretty_env_logger = "=0.5.0"
rand = "=0.8.8"
serde = { version = "=1.0.229", features = ["derive"] }
serde_json = "=1.0.154"
sha3 = "=0.10.9"
sled = "=0.34.7"
tokio = { version = "=1.54.1", features = ["rt-multi-thread", "macros", "sync"] }
warp = "=0.3.7"
