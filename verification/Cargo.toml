[package]
name = "constellation"
version = "0.1.0"
edition = "2021"
publish = false

[dependencies]
wgpu-types = "0.12"
clap = "3"
env_logger = "0.9"
libloading = "0.7"
log = "0.4"
