[package]
name = "transcode"
version = "0.1.0"
edition = "2021"
publish = false

[dependencies]
anyhow = "1"
clap = { version = "4", features = ["derive"] }
serde_json = "1"
serde_yaml = "0.9"
toml = "*"
