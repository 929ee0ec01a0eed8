[package]
name = "vkrs"
version = "0.1.0"
edition = "2021"
publish = false

[dependencies]
chrono = { version = "*", default-features = false, features = ["clock", "std"] }
serde = { version = "*", features = ["derive"] }
serde_json = "*"
reqwest = { version = "*", default-features = false, features = ["blocking"] }
