[package]
name = "dpn_state_sync"
version = "0.1.0"
edition = "2021"
publish = false

[dependencies]
anyhow = "=1.0.104"
chrono = "=0.4.45"
log = "=0.4.34"
redis = "=1.7.1"
redis-async = { version = "=0.18.0", features = ["with-rustls"] }
serde = { version = "=1.0.229", features = ["derive"] }
serde_json = "=1.0.151"
serde_with = "=3.24.0"
url = "=2.5.8"
