[package]
name = "lightning"
version = "0.1.0"
edition = "2021"
publish = false

[dependencies]
chrono-tz = "0.10"
clap = "2"
url = "2"
yaml-rust = "0.3"
