[package]
name = "open_ai_compatible"
version = "0.1.0"
edition = "2021"
publish = false

[dependencies]
anyhow = "1"
convert_case = "0.8"
futures = "0.3"
log = "0.4"
smol = "2"
tiktoken-rs = "0.9"
