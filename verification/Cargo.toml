[package]
name = "radio_core"
version = "0.1.0"
edition = "2021"
publish = false

[dependencies]
rand = "=0.8.8"
tokio = { version = "1", features = ["fs", "io-std", "io-util", "macros", "process", "rt-multi-thread"] }
anni-repo = "0.4.2"
anyhow = "1"
tempfile = "3"
