[package]
name = "loopback_vault"
version = "0.1.0"
edition = "2021"
publish = false

[dependencies]
aes-gcm = "=0.11.1"
base64 = "=0.23.1"
dirs = "=7.0.0"
hex = "=0.4.3"
hmac = "=0.13.0"
pbkdf2 = "=0.13.0"
rand = "=0.8.8"
sha2 = "=0.11.0"
serde = { version = "=1.0.229", features = ["derive"] }
serde_json = "=1.0.151"
tiny_http = "=0.12.0"
reqwest = { version = "=0.13.5", default-features = false, features = ["blocking", "form", "json"] }
opener = "=0.9.0"
