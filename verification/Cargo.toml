[package]
name = "krocore"
version = "0.1.0"
edition = "2021"
publish = false

[dependencies]
nix = { version = "=0.29.0", features = ["fs", "signal", "user", "resource", "process", "time", "poll"] }
clap = { version = "*", features = ["derive"] }
serde = { version = "*", features = ["derive"] }
serde_json = "*"
nu-ansi-term = "*"
