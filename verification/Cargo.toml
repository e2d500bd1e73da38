[package]
name = "key_usage"
version = "0.1.0"
edition = "2021"
publish = false

[dependencies]
chrono = "0.4"
serde = { version = "1", features = ["derive"] }
serde_json = "1"
axum = "0.8"
async-trait = "0.1"
futures = "0.3"
