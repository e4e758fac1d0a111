[package]
name = "oj_api"
version = "0.1.0"
edition = "2021"
publish = false

[dependencies]
askama = "=0.12.1"
axum = "=0.8.9"
chrono = "=0.4.45"
libc = "=0.2.191"
r2d2 = "=0.8.10"
r2d2_sqlite = "=0.35.0"
rand = "=0.8.8"
regex = "=1.13.1"
rusqlite = { version = "=0.40.2", features = ["bundled", "functions"] }
serde = { version = "=1.0.229", features = ["derive"] }
serde_json = "=1.0.154"
sqlite-vec = "=0.1.9"
tokio = { version = "=1.54.1", features = ["full"] }
toml = "=0.8.23"
tower-http = { version = "=0.6.11", features = ["cors", "fs"] }
tracing = "=0.1.44"
tracing-subscriber = { version = "=0.3.23", features = ["env-filter"] }
urlencoding = "=2.1.3"
uuid = { version = "=1.29.0", features = ["v4"] }
zerocopy = "=0.7.35"
