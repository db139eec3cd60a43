[package]
name = "oauth2"
version = "0.1.0"
edition = "2021"
publish = false

[dependencies]
serde_json = "=1.0.151"
sha2 = "=0.11.0"
rand = "=0.10.3"
reqwest = { version = "=0.13.5", default-features = false }
serde = "*"
url = "=2.5.8"

[dev-dependencies]
base64 = "=0.23.1"
