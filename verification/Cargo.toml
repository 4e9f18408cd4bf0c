[package]
name = "crsw"
version = "0.1.0"
edition = "2021"
publish = false

[dependencies]
json = "0.12"
reqwest = { version = "0.11", features = ["blocking"] }
serde = { version = "1", features = ["derive"] }
serde_json = "1"
strum = "0.25"
strum_macros = "0.25"
