[package]
name = "easycheck"
version = "0.1.0"
edition = "2021"
publish = false

[dependencies]
anyhow = "*"
axum = "*"
clap = { version = "*", features = ["derive", "env"] }
futures = "*"
serde = { version = "*", features = ["derive"] }
tokio = { version = "*", features = ["full"] }
