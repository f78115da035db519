[package]
name = "torustiq_common"
version = "0.1.0"
edition = "2021"
publish = false

[dependencies]
env_logger = { version = "0.11", default-features = false }
log = "0.4"
once_cell = "1"
