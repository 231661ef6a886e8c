[package]
name = "feed_crafter"
version = "0.1.0"
edition = "2021"
publish = false

[dependencies]
askama = "*"
axum = "0.8"
chrono = "0.4"
dotenvy = "0.15"
env_logger = "0.11"
log = "0.4"
rss = "2"
serde = { version = "1", features = ["derive"] }
tokio = { version = "1", features = ["full"] }
tower-http = { version = "0.6", features = ["fs"] }
uuid = { version = "1", features = ["v4"] }
