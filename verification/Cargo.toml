[package]
name = "darkmatter"
version = "0.1.0"
edition = "2021"
publish = false

[dependencies]
clap = { version = "*", features = ["derive"] }
clap-verbosity-flag = "*"
env_logger = "*"
log = "*"
rand = "*"
tokio = { version = "*", features = ["rt", "fs", "io-util", "macros"] }
tokio-util = { version = "*", features = ["rt"] }
