[package]
name = "topborder"
version = "0.1.0"
edition = "2021"
publish = false

[dependencies]
env_logger = "*"
smithay-client-toolkit = { version = "*", default-features = false }
wayland-client = "*"
