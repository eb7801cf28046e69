[package]
name = "gitquick"
version = "0.1.0"
edition = "2021"
publish = false

[dependencies]
crossterm = "0.29"
directories = "6"
inquire = "0.9"
serde = { version = "1", features = ["derive"] }
toml = "1"
