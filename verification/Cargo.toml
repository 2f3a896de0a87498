[package]
name = "libre_user"
version = "0.1.0"
edition = "2021"
publish = false

[dependencies]
actix-web = "=4.18.1"
actix-web-httpauth = "=0.8.3"
chrono = { version = "=0.4.45", features = ["serde"] }
diesel = { version = "=2.2.12", features = ["postgres_backend", "uuid", "chrono"] }
diesel-async = { version = "=0.6.1", features = ["postgres", "bb8"] }
dotenv = "=0.15.0"
env_logger = "=0.11.11"
jsonwebtoken = "=9.3.1"
r2d2 = "=0.8.10"
rand = "=0.8.8"
redis = { version = "=0.27.6", features = ["aio", "tokio-comp"] }
rsa = "=0.9.10"
serde = { version = "=1.0.229", features = ["derive"] }
uuid = { version = "=1.29.1", features = ["serde"] }
