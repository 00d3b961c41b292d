[package]
name = "svg_server"
version = "0.1.0"
edition = "2021"
publish = false

[dependencies]
jsonwebtoken = "9"
serde_json = "1"
serde = { version = "1", features = ["derive"] }
rand = "0.8"
chrono = "0.4"
axum = "0.8"
tokio = { version = "1", features = ["rt-multi-thread", "net", "macros"] }
once_cell = "1"
