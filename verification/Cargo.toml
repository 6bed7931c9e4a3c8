[package]
name = "fsac_acquire"
version = "0.1.0"
edition = "2021"
publish = false

[dependencies]
semver = "1"
serde = { version = "1", features = ["derive"] }
zed_extension_api = "*"
