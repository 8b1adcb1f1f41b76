[package]
name = "coop_runtime"
version = "0.1.0"
edition = "2021"
publish = false

[dependencies]
env_logger = "0.10"
futures = "0.3"
lazy_static = "1.4"
libc = "0.2"
log = "0.4"
