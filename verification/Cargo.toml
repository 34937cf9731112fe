[package]
name = "async_serve"
version = "0.1.0"
edition = "2021"
publish = false

[dependencies]
async-std = "1"
futures = "0.3"
slog = "2"
log = "0.4"
pretty_env_logger = "*"
async-ctrlc = "*"
