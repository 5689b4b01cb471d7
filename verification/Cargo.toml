[package]
name = "chat_server"
version = "0.1.0"
edition = "2021"
publish = false

[dependencies]
actix-web = "=4.18.1"
actix-web-lab = "=0.29.5"
chrono = "=0.4.45"
dotenv = "=0.15.0"
email_address = "=0.2.9"
env_logger = "=0.11.11"
jsonwebtoken = "=8.3.0"
magic-crypt = "=3.1.13"
mongodb = { version = "=2.8.2", features = ["tokio-sync"] }
serde = { version = "=1.0.229", features = ["derive"] }
serde_json = "=1.0.154"
