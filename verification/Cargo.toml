[package]
name = "rv32i"
version = "0.1.0"
edition = "2021"
publish = false

[dependencies]
egui = { version = "=0.26.2", default-features = false }
env_logger = { version = "=0.11.11", default-features = false }
