[package]
name = "uploader"
version = "0.1.0"
edition = "2021"
publish = false

[dependencies]
flate2 = "1"
tar = "0.4"
sha2 = "0.10"
semver = "1"
anyhow = "1"
reqwest = { version = "0.12", default-features = false, features = ["blocking"] }
