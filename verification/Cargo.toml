[package]
name = "user_store"
version = "0.1.0"
edition = "2021"
publish = false

[dependencies]
mongodb = "2"
tokio-postgres = "0.7"
tokio = { version = "1", features = ["full"] }
serde = { version = "1", features = ["derive"] }
serde_json = "1"
dotenv = "0.15"
