[package]
name = "gifhacker"
version = "0.1.0"
edition = "2021"
publish = false

[dependencies]
gif = "*"
iced = { version = "0.4", features = ["image", "tokio"] }
reqwest = { version = "0.11", default-features = false }
