[package]
name = "spinners_rs"
version = "0.1.0"
edition = "2021"
publish = false

[dependencies]
neon = "1"
strum = { version = "0.24", features = ["derive"] }
