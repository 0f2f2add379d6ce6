[package]
name = "hotserver"
version = "0.1.0"
edition = "2021"
publish = false

[dependencies]
anyhow = "=1.0.104"
axum = "=0.7.9"
base64 = "=0.22.1"
chrono = "=0.4.45"
dotenvy = "=0.15.7"
poem = { version = "=3.1.12", features = ["session", "compression", "redis-session"] }
poem-openapi = { version = "=5.1.16", features = ["swagger-ui"] }
rand = "=0.8.8"
redis = { version = "0.32", features = ["aio", "tokio-comp", "connection-manager"] }
sea-orm = { version = "=1.1.20", default-features = false }
serde = { version = "=1.0.229", features = ["derive"] }
serde_json = "=1.0.154"
tokio = { version = "=1.54.1", features = ["full"] }
tower-http = { version = "=0.5.2", features = ["compression-full", "trace"] }
tracing = "=0.1.44"
tracing-appender = "=0.2.5"
tracing-subscriber = { version = "=0.3.23", features = ["env-filter"] }
utoipa = { version = "=4.2.3", features = ["yaml"] }
