[package]
name = "verida"
version = "0.1.0"
edition = "2021"
publish = false

[dependencies]
actix-cors = "=0.7.2"
actix-web = { version = "=4.18.1", default-features = false, features = ["macros"] }
anyhow = "=1.0.104"
chrono = { version = "=0.4.45", features = ["serde"] }
env_logger = { version = "=0.11.11", default-features = false }
log = "=0.4.34"
reqwest = { version = "=0.12.28", default-features = false, features = ["json", "rustls-tls"] }
serde = { version = "1", features = ["derive"] }
serde_json = "1"
soroban-sdk = "23"
sqlx = { version = "=0.8.6", default-features = false, features = ["runtime-tokio", "sqlite", "chrono", "uuid", "migrate"] }
uuid = { version = "=1.29.0", features = ["v4", "serde"] }
