[package]
name = "poopman"
version = "0.1.0"
edition = "2021"
publish = false

[dependencies]
url = "=2.5.8"
urlencoding = "=2.1.3"
serde_json = { version = "=1.0.154", features = ["float_roundtrip", "preserve_order"] }
quick-xml = "=0.42.0"
chrono = "=0.4.45"
anyhow = "=1.0.104"
log = "=0.4.34"
dirs = "=7.0.0"
env_logger = "=0.11.11"
futures = "=0.3.34"
reqwest = "=0.13.5"
rusqlite = { version = "=0.41.0", features = ["bundled"] }
tokio = { version = "=1.54.1", features = ["rt-multi-thread"] }
