[package]
name = "kiro_proxy"
version = "0.1.0"
edition = "2021"
publish = false

[dependencies]
anyhow = "=1.0.104"
argon2 = "=0.5.3"
axum = "=0.7.9"
base64 = "=0.22.1"
bytes = "=1.12.1"
chrono = "=0.4.45"
dashmap = "=6.2.1"
dotenvy = "=0.15.7"
futures = "=0.3.34"
hex = "=0.4.3"
rand = "=0.8.8"
reqwest = { version = "=0.12.28", default-features = false, features = ["json", "rustls-tls"] }
serde = { version = "=1.0.229", features = ["derive"] }
serde_json = "=1.0.154"
sha2 = "=0.10.9"
sqlx = { version = "=0.8.6", default-features = false, features = ["runtime-tokio", "sqlite", "derive"] }
subtle = "=2.6.1"
tokio = { version = "=1.54.1", features = ["full"] }
tower-http = { version = "=0.5.2", features = ["cors", "fs"] }
tracing = "=0.1.44"
tracing-subscriber = { version = "=0.3.23", features = ["env-filter"] }
urlencoding = "=2.1.3"
uuid = { version = "=1.29.0", features = ["v4"] }
