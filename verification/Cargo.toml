[package]
name = "thumbprint_bundle"
version = "0.1.0"
edition = "2021"
publish = false

[dependencies]
anyhow = "1"
jsonwebtoken = "9"
serde_json = "1"
sha1 = "0.10"
sha2 = "0.10"

[dev-dependencies]
base64 = "0.22"
hex = "0.4"
