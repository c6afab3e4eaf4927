[package]
name = "apns_h2"
version = "0.1.0"
edition = "2021"
publish = false

[dependencies]
serde = { version = "=1.0.229", features = ["derive"] }
serde_json = "=1.0.154"
erased-serde = "=0.4.11"
p12-keystore = "=0.3.2"
pem = "=3.0.6"
