[package]
name = "fastfreeze"
version = "0.1.0"
edition = "2021"
publish = false

[dependencies]
anyhow = "1"
chrono = "0.4"
hostname = "0.3"
libc = "0.2"
log = "0.4"
nix = { version = "0.26", features = ["fs", "poll", "process", "signal"] }
serde = { version = "1", features = ["derive"] }
serde_json = "1"
signal-hook = "0.3"
structopt = "0.3"
