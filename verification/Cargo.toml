[package]
name = "tgt"
version = "0.1.0"
edition = "2021"
publish = false

[dependencies]
tokio = { version = "*", features = ["sync"], default-features = false }
ratatui = "*"
