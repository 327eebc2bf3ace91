[package]
name = "vecsim"
version = "0.1.0"
edition = "2021"
publish = false

[dependencies]
simsimd = "*"
serde = { version = "*", features = ["derive"] }
