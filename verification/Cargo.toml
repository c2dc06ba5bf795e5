[package]
name = "notes_api"
version = "0.1.0"
edition = "2021"
publish = false

[dependencies]
aes-gcm = "=0.10.3"
argon2 = "=0.5.3"
base64 = "=0.22.1"
chrono = "=0.4.45"
josekit = "=0.10.3"
password-hash = "=0.5.0"
uuid = { version = "=1.27.0", features = ["v4", "serde"] }
anyhow = "=1.0.104"
serde = { version = "=1.0.229", features = ["derive"] }
cookie = "=0.18.2"
axum = "=0.8.9"
axum-extra = { version = "=0.12.6", features = ["typed-header"] }
sqlx = { version = "=0.8.6", features = ["sqlite", "runtime-tokio", "uuid", "chrono"] }
tokio = { version = "=1.53.2", features = ["full"] }
