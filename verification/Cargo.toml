[package]
name = "xi_config"
version = "0.1.0"
edition = "2021"
publish = false

[dependencies]
config = { version = "=0.13.4", default-features = false, features = ["toml"] }
notify = "=4.0.18"
serde = { version = "=1.0.229", features = ["derive"] }
