[package]
name = "campus_backend"
version = "0.1.0"
edition = "2021"
publish = false

[dependencies]
axum = "0.8"
axum-extra = { version = "0.10", features = ["typed-header"] }
base64 = "0.22"
dotenvy = "0.15"
log = "0.4"
rs-firebase-admin-sdk = "*"
serde = { version = "1", features = ["derive"] }
serde_json = "1"
sqlx = { version = "0.8", default-features = false, features = ["runtime-tokio", "postgres", "time", "json", "macros"] }
time = { version = "0.3", features = ["serde"] }
tokio = { version = "1", features = ["macros", "rt-multi-thread", "net"] }
