[package]
name = "cfb_time_puller"
version = "0.1.0"
edition = "2021"
publish = false

[dependencies]
ehttp = "*"
serde = { version = "1", features = ["derive"] }
serde_json = "1"
