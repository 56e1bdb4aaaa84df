[package]
name = "twilio_error"
version = "0.1.0"
edition = "2021"
publish = false

[dependencies]
http = "*"
hyper = { version = "*", features = ["client", "http1"] }
serde_json = "*"
typed-headers = "*"
