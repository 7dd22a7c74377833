[package]
name = "blog"
version = "0.1.0"
edition = "2021"
publish = false

[dependencies]
askama = "=0.12.1"
axum = "=0.8.9"
bcrypt = "=0.15.1"
chrono = { version = "=0.4.45", features = ["serde"] }
dotenv = "=0.15.0"
rand = "=0.8.8"
serde = { version = "=1.0.229", features = ["derive"] }
sqlx = { version = "=0.8.6", default-features = false, features = ["postgres", "runtime-tokio", "chrono", "migrate"] }
tokio = { version = "=1.54.1", features = ["full"] }
tracing-subscriber = "=0.3.23"
