[package]
name = "auth_core"
version = "0.1.0"
edition = "2021"
publish = false

[dependencies]
argon2 = "=0.5.3"
hmac = "=0.12.1"
password-hash = { version = "=0.5.0", features = ["getrandom"] }
sha2 = "=0.10.9"
