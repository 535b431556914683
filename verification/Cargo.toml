[package]
name = "givc-cli"
version = "0.1.0"
edition = "2021"
publish = false

[dependencies]
anyhow = "1"
clap = { version = "4", features = ["derive", "env"] }
serde = "1"
serde_json = "1"
tokio = { version = "1", features = ["io-std", "io-util", "macros", "rt-multi-thread", "time"] }
tonic = "*"
tracing = "0.1"

[dev-dependencies]
lazy-regex = "3"
