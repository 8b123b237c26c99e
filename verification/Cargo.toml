[package]
name = "rustcontainer"
version = "0.1.0"
edition = "2021"
publish = false

[dependencies]
clap = "*"
libc = "*"
nix = { version = "*", features = ["fs", "mount", "process", "sched", "signal", "user"] }
