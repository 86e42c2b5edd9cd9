[package]
name = "archery_reg"
version = "0.1.0"
edition = "2021"
publish = false

[dependencies]
email_address = "*"
serde = { version = "*", features = ["derive"] }
serde_json = "*"
chrono = "*"
clap = { version = "*", features = ["derive"] }
