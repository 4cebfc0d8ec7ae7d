[package]
name = "dmexec"
version = "0.1.0"
edition = "2021"
publish = false

[dependencies]
errno = "*"
exec = "*"
fork = "*"
nix = { version = "*", features = ["fs", "process", "signal"] }

[dev-dependencies]
libc = "*"
