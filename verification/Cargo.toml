[package]
name = "rabbit_test"
version = "0.1.0"
edition = "2021"
publish = false

[dependencies]
lapin = { version = "*", default-features = false }
tokio = { version = "*", features = ["macros", "rt-multi-thread"] }
futures-lite = "*"
