[package]
name = "touch_engine"
version = "0.1.0"
edition = "2021"
publish = false

[dependencies]
num = "0.4"
serde = { version = "1", features = ["derive"] }
serde_json = "1"
rosc = "*"
log = "0.4"
