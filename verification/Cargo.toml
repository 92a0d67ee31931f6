[package]
name = "just_download"
version = "0.1.0"
edition = "2021"
publish = false

[dependencies]
semver = "=1.0.28"
reqwest = { version = "=0.12.28", features = ["blocking"] }
indicatif = "=0.17.11"
log = "=0.4.34"
