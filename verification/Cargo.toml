[package]
name = "whisper_rs"
version = "0.1.0"
edition = "2021"
publish = false

[dependencies]
whisper-rs-sys = "*"
