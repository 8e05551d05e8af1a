[package]
name = "sqep_lite"
version = "0.1.0"
edition = "2021"
publish = false

[dependencies]
base64 = "0.22"
hex = "0.4"
rand = "0.8"
rand_chacha = "0.3"
ring = "0.17"
serde = { version = "1", features = ["derive"] }
sha2 = "0.10"
