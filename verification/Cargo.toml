[package]
name = "ddcutil-varlink"
version = "1.0.0"
edition = "2021"
publish = false

[dependencies]
base64 = "0.22"
crossbeam-channel = "0.5"
env_logger = "0.11"
libc = "0.2"
log = "0.4"
regex = "1"
rustix = { version = "1", features = ["process"] }
serde = { version = "1", features = ["derive"] }
serde_derive = "1"
serde_json = "1"
thiserror = "2"
varlink = "*"
