[package]
name = "routing"
version = "0.1.0"
edition = "2021"
publish = false

[dependencies]
threshold_crypto = "=0.4.0"
rand = "0.7"
envy = "0.4"
serde = { version = "1.0", features = ["derive"] }
