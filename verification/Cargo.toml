[package]
name = "email_notif"
version = "0.1.0"
edition = "2021"
publish = false

[dependencies]
lettre = "0.11"
serde = { version = "1", features = ["derive"] }
serde_json = "1"
