[package]
name = "resend_desk"
version = "0.1.0"
edition = "2021"
publish = false

[dependencies]
resend-rs = "*"
serde = { version = "1", features = ["derive"] }
serde_json = "1"
