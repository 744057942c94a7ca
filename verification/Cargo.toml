[package]
name = "malvolio"
version = "0.1.0"
edition = "2021"
publish = false

[dependencies]
fuzzcheck = "*"
serde = { version = "1", features = ["derive"] }
