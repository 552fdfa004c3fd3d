[package]
name = "byte_unit_serde"
version = "0.1.0"
edition = "2021"
publish = false

[dependencies]
byte-unit = { version = "5", features = ["serde"] }
serde = "1"

[dev-dependencies]
serde_json = "1"
