[package]
name = "rust_chat_server"
version = "0.1.0"
edition = "2021"
publish = false

[dependencies]
uuid = { version = "=1.29.0", features = ["v4", "v7", "serde"] }
time = { version = "=0.3.55", features = ["serde"] }
chrono = { version = "=0.4.45", features = ["serde"] }
sha2 = "=0.10.9"
argon2 = "=0.5.3"
rand = "=0.8.8"
serde = { version = "=1.0.229", features = ["derive"] }
serde_json = { version = "=1.0.154", features = ["preserve_order"] }
thiserror = "=2.0.21"
jsonwebtoken = "=9.3.1"
axum = { version = "=0.8.9", features = ["ws", "multipart"] }
tokio = { version = "=1.54.1", features = ["full"] }
tower = "=0.5.3"
tower-http = { version = "=0.6.11", features = ["trace", "compression-gzip", "sensitive-headers"] }
sqlx = { version = "=0.8.6", default-features = false, features = ["runtime-tokio", "postgres", "uuid", "time", "json", "macros"] }
redis = { version = "=0.27.6", features = ["tokio-comp", "connection-manager"] }
utoipa = { version = "=5.5.0", features = ["uuid", "time"] }
dotenvy = "=0.15.7"
futures-util = { version = "=0.3.34", features = ["sink"] }
livekit-api = { version = "=0.10.0", default-features = false, features = ["access-token"] }
