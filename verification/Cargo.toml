[package]
name = "deploy_rs"
version = "0.1.0"
edition = "2021"
publish = false

[dependencies]
clap = { version = "*", features = ["derive"] }
dirs = "*"
notify = "*"
signal-hook = "*"
