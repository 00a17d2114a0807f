[package]
name = "sentinel"
version = "0.1.0"
edition = "2021"
publish = false

[dependencies]
sysinfo = "0.28"
clap = { version = "4", features = ["derive"] }
anyhow = "1"
env_logger = "0.10"
log = "0.4"
