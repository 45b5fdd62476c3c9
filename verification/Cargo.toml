[package]
name = "saf_app"
version = "0.1.0"
edition = "2021"
publish = false

[dependencies]
anyhow = "=1.0.104"
clap = { version = "=4.6.7", features = ["derive"] }
json5 = "=0.4.1"
regex = "1"
serde = { version = "=1.0.229", features = ["derive"] }
serde_json = "=1.0.154"
url = "=2.5.8"
uuid = { version = "=1.29.0", features = ["v4"] }
