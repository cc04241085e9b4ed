[package]
name = "user_service"
version = "0.1.0"
edition = "2021"
publish = false

[dependencies]
bcrypt = "=0.19.3"
serde = { version = "=1.0.229", features = ["derive"] }
mongodb = { version = "=2.8.2", features = ["tokio-sync"] }
rocket = { version = "=0.5.1", features = ["json"] }
dotenv = "=0.15.0"
