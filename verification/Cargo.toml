[package]
name = "user_service"
version = "0.1.0"
edition = "2021"
publish = false

[dependencies]
alcoholic_jwt = "=10039.0.0"
chrono = "=0.4.45"
serde = { version = "1", features = ["derive"] }
serde_json = "1"
actix-web = "=4.15.0"
actix-web-httpauth = "=0.8.3"
tokio = { version = "1", features = ["macros", "rt-multi-thread"] }
reqwest = { version = "=0.13.5", features = ["json"] }
