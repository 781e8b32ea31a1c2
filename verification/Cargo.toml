[package]
name = "requirement_model"
version = "0.1.0"
edition = "2021"
publish = false

[dependencies]
itertools = "0.14"
serde = { version = "1", features = ["derive"] }
