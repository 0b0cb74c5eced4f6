[package]
name = "imgtool"
version = "0.1.0"
edition = "2021"
publish = false

[dependencies]
image = "0.25"
walkdir = "2"
kamadak-exif = "0.5"
serde = { version = "1", features = ["derive"] }
serde_json = "1"
clap = { version = "4", features = ["derive"] }
