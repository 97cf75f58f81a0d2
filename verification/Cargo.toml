[package]
name = "num_stream"
version = "0.1.0"
edition = "2021"
publish = false

[dependencies]
futures = "*"
tokio = { version = "*", features = ["macros", "rt", "rt-multi-thread", "time"] }
