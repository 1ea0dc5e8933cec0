[package]
name = "judge"
version = "0.1.0"
edition = "2021"
publish = false

[dependencies]
process_control = "*"
serde_json = "1"
