[package]
name = "batch_remux"
version = "0.1.0"
edition = "2021"
publish = false

[dependencies]
crc32fast = "1"
fs2 = "0.4"
serde = { version = "1", features = ["derive"] }
serde_json = "1"
walkdir = "2"
