[package]
name = "secret_server"
version = "0.1.0"
edition = "2021"
publish = false

[dependencies]
uuid = { version = "1", features = ["v4"] }
axum = "*"
tokio = { version = "1", features = ["macros", "rt", "net"] }
anyhow = "1"
