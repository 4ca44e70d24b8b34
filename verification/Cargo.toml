[package]
name = "gamath"
version = "0.1.0"
edition = "2021"
publish = false

[dependencies]
serde = { version = "1", features = ["derive"] }
bitcode = { version = "0.6", features = ["derive"] }
