[package]
name = "controller"
version = "0.1.0"
edition = "2021"
publish = false

[dependencies]
hex = "0.4"
jsonwebtoken = "9"
serde = { version = "1", features = ["derive"] }
serde_json = "1"
anyhow = "1"
axum = "0.7"
tokio = { version = "1", features = ["macros", "rt-multi-thread", "net"] }
reqwest = { version = "0.12", default-features = false }
tracing = "0.1"
tracing-subscriber = "0.3"
