[package]
name = "nixpacks"
version = "0.1.0"
edition = "2021"
publish = false

[dependencies]
anyhow = "1"
regex = "1"
tempdir = "0.3"
uuid = { version = "1", features = ["v4"] }
