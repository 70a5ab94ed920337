[package]
name = "chat_backend"
version = "0.1.0"
edition = "2021"
publish = false

[dependencies]
argon2 = "=0.5.3"
async-trait = "=0.1.92"
axum = { version = "=0.8.9", features = ["ws"] }
chrono = { version = "=0.4.45", features = ["serde"] }
clap = { version = "=4.6.7", features = ["derive", "env"] }
dotenvy = "=0.15.7"
futures-util = "=0.3.34"
jsonwebtoken = "=9.3.1"
redis = { version = "=0.27.6", features = ["tokio-comp"] }
serde = { version = "=1.0.229", features = ["derive"] }
serde_json = { version = "=1.0.154", features = ["preserve_order"] }
sqlx = { version = "=0.8.6", default-features = false, features = ["runtime-tokio", "postgres", "uuid", "chrono"] }
tokio = { version = "=1.54.1", features = ["full"] }
tracing = "=0.1.44"
tracing-subscriber = "=0.3.23"
uuid = { version = "=1.29.0", features = ["v4", "serde"] }
validator = { version = "=0.20.0", features = ["derive"] }
