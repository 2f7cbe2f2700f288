[package]
name = "neutral_ipc"
version = "0.1.0"
edition = "2021"
publish = false

[dependencies]
serde_json = "=1.0.151"
tokio = { version = "=1.53.2", features = ["net", "io-util", "rt-multi-thread", "macros"] }
