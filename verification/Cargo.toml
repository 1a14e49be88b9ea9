[package]
name = "aegis"
version = "0.1.0"
edition = "2021"
publish = false

[dependencies]
anyhow = "=1.0.104"
chrono = { version = "=0.4.45", features = ["serde"] }
hex = "=0.4.3"
hmac = "=0.12.1"
serde = { version = "=1.0.229", features = ["derive"] }
serde_json = "=1.0.154"
sha2 = "=0.10.9"
thiserror = "=2.0.21"
tokio = { version = "=1.54.1", features = ["full"] }
toml = "=0.8.23"
tracing = "=0.1.44"
tracing-subscriber = { version = "=0.3.23", features = ["env-filter", "json"] }
udev = "=0.9.3"
uuid = { version = "=1.29.0", features = ["v4", "serde"] }
yara-x = { version = "=1.22.1", default-features = false, features = ["constant-folding", "exact-atoms", "fast-regexp"] }
