[package]
name = "nautilus_aster"
version = "0.1.0"
edition = "2021"
publish = false

[dependencies]
ahash = "=0.8.12"
siphasher = "=1.0.4"
serde = { version = "=1.0.229", features = ["derive"] }
serde_json = "=1.0.154"
serde_urlencoded = "=0.7.1"
chrono = "=0.4.45"
thiserror = "=2.0.21"
anyhow = "=1.0.104"
log = "=0.4.35"
tokio = { version = "=1.54.1", features = ["sync", "macros", "rt"] }
rust_decimal = "=1.43.0"
dashmap = "=6.2.1"
ustr = "=1.1.0"
