[package]
name = "fdb"
version = "0.1.0"
edition = "2021"
publish = false

[dependencies]
nix = { version = "*", features = ["ptrace", "process", "signal"] }
anyhow = "*"
clap = { version = "*", features = ["derive"] }
env_logger = "*"
log = "*"
rustyline = "*"
thiserror = "*"
