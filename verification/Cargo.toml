[package]
name = "http_stress"
version = "0.2.1"
edition = "2021"
publish = false

[dependencies]
clap = "4"
futures = "0.3"
reqwest = { version = "0.12", default-features = false }
tokio = { version = "1", features = ["rt-multi-thread", "time"] }
