[package]
name = "tls_interop"
version = "0.1.0"
edition = "2021"
publish = false

[dependencies]
clap = "2"
env_logger = "*"
log = "0.4"
mio = { version = "1", features = ["os-poll", "net"] }
rustc-serialize = "0.3"
