[package]
name = "limiting_factor"
version = "0.1.0"
edition = "2021"
publish = false

[dependencies]
axum = "*"
http-body-util = "*"
serde = { version = "*", features = ["derive"] }
tokio = { version = "*", features = ["net", "rt"] }
