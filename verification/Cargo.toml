[package]
name = "handy"
version = "0.1.0"
edition = "2021"
publish = false

[dependencies]
anyhow = "1"
hound = "3.5"
log = "0.4"
serde = { version = "1", features = ["derive"] }
serde_json = "1"
