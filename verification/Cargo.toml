[package]
name = "payment_engine"
version = "0.1.0"
edition = "2021"
publish = false

[dependencies]
hex = "0.4"
hmac = "0.12"
sha2 = "0.10"
rand = "0.8"
solana-signature = "*"
serde = { version = "1", features = ["derive"] }
serde_json = "1"
chrono = "0.4"
jsonwebtoken = "9"
uuid = { version = "1", features = ["v4"] }
dotenv = "0.15"
tokio = { version = "1", features = ["full"] }
axum = "0.7"
reqwest = { version = "0.12", default-features = false, features = ["json", "rustls-tls"] }
sqlx = { version = "0.8", default-features = false, features = ["sqlite", "runtime-tokio", "derive"] }
