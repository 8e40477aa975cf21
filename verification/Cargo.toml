[package]
name = "urbanite"
version = "0.1.0"
edition = "2021"
publish = false

[dependencies]
futures-lite = "1"
noise = { version = "0.7", default-features = false }
