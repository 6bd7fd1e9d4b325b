[package]
name = "prun"
version = "0.1.0"
edition = "2021"
publish = false

[dependencies]
anyhow = "*"
nix = { version = "*", features = ["fs", "hostname", "mount", "process", "sched", "signal", "uio", "user"] }
tracing = "*"
tracing-subscriber = "*"
