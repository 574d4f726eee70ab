[package]
name = "charac"
version = "0.1.0"
edition = "2021"
publish = false

[dependencies]
chacha20poly1305 = "=0.10.1"
validator = "=0.21.0"
phonenumber = "=0.3.10"
chrono = "=0.4.45"
iso_currency = "=0.7.1"
hex = "=0.4.3"
dotenvy = "=0.15.7"
surrealdb = { version = "=3.3.5", default-features = false, features = ["protocol-ws"] }
tokio = { version = "=1.54.1", features = ["rt-multi-thread", "macros"] }
axum = "*"
axum-extra = { version = "*", features = ["cookie", "typed-header"] }
headers = "*"
time = "*"
serde = { version = "*", features = ["derive"] }
thiserror = "*"
hackclub_auth_api = "*"
