[package]
name = "weathernoaa"
version = "0.1.0"
edition = "2021"
publish = false

[dependencies]
reqwest = { version = "*", default-features = false, features = ["blocking"] }
tokio = { version = "*", features = ["macros", "rt-multi-thread"] }
