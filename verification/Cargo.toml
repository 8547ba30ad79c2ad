[package]
name = "healthd"
version = "0.1.0"
edition = "2021"
publish = false

[dependencies]
actix-cors = "*"
actix-web = { version = "4", features = ["rustls-0_23"] }
env_logger = "*"
log = "*"
rustls = "0.23"
rustls-pemfile = "2"
serde = { version = "1", features = ["derive"] }
