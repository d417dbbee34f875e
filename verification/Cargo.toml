[package]
name = "stripe_entropy"
version = "0.1.0"
edition = "2021"
publish = false

[dependencies]
chacha20 = "0.9"
clap = { version = "4", features = ["derive"] }
entropy = "*"
serde = { version = "1", features = ["derive"] }
serde_json = "1"
