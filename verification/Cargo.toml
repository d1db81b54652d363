[package]
name = "fluyendo"
version = "0.1.0"
edition = "2021"
publish = false

[dependencies]
csscolorparser = "*"
serde = { version = "*", features = ["derive"] }
toml = "*"
humantime-serde = "*"
raplay = "*"
