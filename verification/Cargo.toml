[package]
name = "mirror_watch"
version = "0.1.0"
edition = "2021"
publish = false

[dependencies]
clap = { version = "4", features = ["derive", "cargo"] }
env_logger = "*"
fs_extra = "1"
futures = "0.3"
log = "0.4"
notify = "*"
