[package]
name = "rdm"
version = "0.1.0"
edition = "2021"
publish = false

[dependencies]
docopt = "1"
env_logger = "*"
hyper = "0.10"
log = "0.4"
rustc-serialize = "0.3"
serde = { version = "1", features = ["derive"] }
time = "0.1"
url = "2"
uuid = { version = "1", features = ["v4"] }
