[package]
name = "platform_config"
version = "0.1.0"
edition = "2021"
publish = false

[dependencies]
serde = { version = "1", features = ["derive"] }
serde_json = "1"
toml = "0.8"
thiserror = "1"
chrono = { version = "0.4", features = ["serde"] }
rust_decimal = "1"
