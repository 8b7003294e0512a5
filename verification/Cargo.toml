[package]
name = "rs-ecommerce"
version = "0.1.0"
edition = "2021"
publish = false

[dependencies]
chrono = "=0.4.45"
uuid = { version = "=1.29.0", features = ["v4"] }
sha2 = "=0.10.9"
hex = "=0.4.3"
serde = { version = "=1.0.229", features = ["derive"] }
serde_json = "=1.0.154"
axum = "=0.7.9"
argon2 = "=0.5.3"
rand_core = { version = "=0.6.4", features = ["getrandom"] }
jsonwebtoken = "=9.3.1"
reqwest = { version = "=0.12.28", default-features = false }
tokio = { version = "=1.54.1", features = ["macros", "rt-multi-thread", "net"] }
