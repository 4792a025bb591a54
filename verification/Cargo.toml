[package]
name = "tinytask"
version = "0.1.0"
edition = "2021"
publish = false

[dependencies]
serde = { version = "=1.0.229", features = ["derive"] }
serde_json = "=1.0.154"
bincode = "=1.3.3"
evdev = "=0.12.2"
nix = { version = "=0.28.0", features = ["poll", "fs"] }
crossbeam-channel = "=0.5.17"
log = "=0.4.35"
env_logger = { version = "=0.11.11", default-features = false }
dirs = "5.0"
