[package]
name = "clicky"
version = "0.1.0"
edition = "2021"
publish = false

[dependencies]
crossbeam-channel = "*"
log = "*"
pretty_env_logger = "*"
