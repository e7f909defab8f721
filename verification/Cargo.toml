[package]
name = "zterm_daemon"
version = "0.1.0"
edition = "2021"
publish = false

[dependencies]
ring = "0.17"
