[package]
name = "restarter"
version = "0.1.0"
edition = "2021"
publish = false

[dependencies]
signal-hook = "0.3"
libc = "0.2"
log = "0.4"
env_logger = "0.10"
serde_json = "1"
