[package]
name = "channel_service"
version = "0.1.0"
edition = "2021"
publish = false

[dependencies]
axum = "*"
deadpool-postgres = "*"
serde = { version = "*", features = ["derive"] }
tokio = { version = "*", features = ["macros", "rt-multi-thread", "net"] }
tokio-postgres = "*"
tracing-subscriber = "*"
