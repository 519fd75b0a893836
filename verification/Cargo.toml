[package]
name = "keylocate"
version = "0.1.0"
edition = "2021"
publish = false

[dependencies]
base64 = "*"
clap = { version = "*", features = ["derive"] }
regex = "*"
serde = { version = "*", features = ["derive"] }
serde_json = "*"
tokio = { version = "*", features = ["rt-multi-thread", "fs", "io-util", "macros"] }
reqwest = { version = "*", default-features = false }
tracing = "*"
tracing-subscriber = "*"
