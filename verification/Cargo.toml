[package]
name = "pizza_timer"
version = "0.1.0"
edition = "2021"
publish = false

[dependencies]
chrono = { version = "0.4", default-features = false, features = ["std"] }
tokio = { version = "1", features = ["rt-multi-thread", "macros", "time"] }
rodio = { version = "0.17", default-features = false }
