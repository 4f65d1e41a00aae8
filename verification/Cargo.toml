[package]
name = "pluginhub"
version = "0.1.0"
edition = "2021"
publish = false

[dependencies]
serde = { version = "*", features = ["derive"] }
serde_json = "*"
ws = "*"
reqwest = { version = "*", default-features = false, features = ["blocking"] }
