[package]
name = "upyremote"
version = "0.1.0"
edition = "2021"
publish = false

[dependencies]
anyhow = "1"
atty = "0.2"
clap = { version = "4", features = ["derive"] }
crossterm = "0.27"
serialport = { version = "4", default-features = false }
