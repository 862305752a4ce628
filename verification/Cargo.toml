[package]
name = "chat_backend"
version = "0.1.0"
edition = "2021"
publish = false

[dependencies]
actix = "0.13"
actix-web = "4"
actix-web-actors = "4.2"
actix-identity = "0.4"
sqlx = { version = "0.7", default-features = false, features = ["runtime-tokio", "postgres", "macros"] }
serde = { version = "1", features = ["derive"] }
anyhow = "1"
cookie = "0.16"
dotenv = "0.15"
jsonwebtoken = "8"
pbkdf2 = "0.12"
sha2 = "0.10"
