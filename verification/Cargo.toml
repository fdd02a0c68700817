[package]
name = "botstone"
version = "0.1.0"
edition = "2021"
publish = false

[dependencies]
json5 = "0.4"
serde_json = "1"
serenity = { version = "0.10", default-features = false }
