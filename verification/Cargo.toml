[package]
name = "native-agent"
version = "0.1.0"
edition = "2021"
publish = false

[dependencies]
error-chain = "0.12"
log = "0.4"
pretty_env_logger = "0.4"
