[package]
name = "spawn_worker"
version = "0.1.0"
edition = "2021"
publish = false

[dependencies]
anyhow = "1"
libc = "0.2"
memfd = "0.4"
nix = "0.26"
