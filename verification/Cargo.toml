[package]
name = "relay_selector"
version = "0.1.0"
edition = "2021"
publish = false

[dependencies]
rand = "0.8"
itertools = "*"
serde = { version = "1", features = ["derive"] }
serde_json = "1"
