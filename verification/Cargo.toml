[package]
name = "rbspy"
version = "0.1.0"
edition = "2021"
publish = false

[dependencies]
remoteprocess = "*"
proc-maps = "*"

[dev-dependencies]
nix = { version = "*", features = ["process", "user"] }
