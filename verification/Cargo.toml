[package]
name = "bookstore"
version = "0.1.0"
edition = "2021"
publish = false

[dependencies]
actix-web = "=4.15.0"
serde = { version = "=1.0.229", features = ["derive"] }
log = "=0.4.34"
env_logger = "=0.11.11"

[dev-dependencies]
tokio = { version = "=1.53.2", features = ["rt-multi-thread"] }
