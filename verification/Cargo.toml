[package]
name = "to_js"
version = "0.1.0"
edition = "2021"
publish = false

[dependencies]
quote = "1"
serde = "1"
serde_json = "1"
syn = { version = "2", features = ["full"] }
