[package]
name = "aeternum"
version = "0.1.0"
edition = "2021"
publish = false

[dependencies]
glob = "*"
which = "*"
dirs = "*"
imagesize = "*"
clap = { version = "*", features = ["derive"] }
log = "*"
env_logger = "*"
serde = { version = "*", features = ["derive"] }
toml = "*"
