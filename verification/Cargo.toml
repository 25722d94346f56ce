[package]
name = "thesis_backend"
version = "0.1.0"
edition = "2021"
publish = false

[dependencies]
actix-session = { version = "=0.10.1", features = ["cookie-session"] }
actix-web = "=4.18.1"
argon2 = { version = "=0.5.3", features = ["std"] }
bigdecimal = { version = "=0.4.11", features = ["serde"] }
chrono = { version = "=0.4.45", features = ["serde"] }
diesel = { version = "=2.3.14", features = ["postgres", "r2d2", "chrono", "numeric"] }
env_logger = "=0.11.11"
serde = { version = "=1.0.229", features = ["derive"] }
