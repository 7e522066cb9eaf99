[package]
name = "ori_apk"
version = "0.1.0"
edition = "2021"
publish = false

[dependencies]
apk = "*"
cargo_metadata = "*"
clap = { version = "*", features = ["derive"] }
color-eyre = "*"
eyre = "*"
serde = { version = "*", features = ["derive"] }
serde_json = "*"
