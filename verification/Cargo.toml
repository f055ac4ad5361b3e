[package]
name = "sten"
version = "0.1.0"
edition = "2021"
publish = false

[dependencies]
anyhow = "1"
notify-rust = { version = "4", default-features = false, features = ["z"] }
open = "5"
reqwest = { version = "0.12", default-features = false }
serde_json = "=1.0.151"
tokio = { version = "1", features = ["rt-multi-thread", "macros", "time"] }
