[package]
name = "resize_server"
version = "0.1.0"
edition = "2021"
publish = false

[dependencies]
photon-rs = "*"
rand = "0.8"
actix-web = "4"
actix-files = "0.6"
tokio = { version = "1", features = ["fs", "sync", "rt-multi-thread", "macros"] }
bytes = "1"
chrono = "0.4"
env_logger = "0.11"
log = "0.4"
sysinfo = "0.30"
