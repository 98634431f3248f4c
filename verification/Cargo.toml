[package]
name = "valheim-log-parser"
version = "0.1.0"
edition = "2021"
publish = false

[dependencies]
anyhow = "1"
chrono = "0.4"
discord = { version = "0.8", default-features = false }
nix = "0.20"
rand = "0.8"
regex = "1"
signal-hook = "0.3"
thiserror = "1"
