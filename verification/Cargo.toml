[package]
name = "rust_debugging_locks"
version = "0.1.0"
edition = "2021"
publish = false

[dependencies]
backtrace = "0.3"
base58 = "0.2"
log = "0.4"
env_logger = "0.10"
serde = "1"

[dev-dependencies]
serde_json = "1"
