[package]
name = "acp-agent-cli"
version = "0.1.0"
edition = "2021"
publish = false

[dependencies]
anyhow = "=1.0.104"
chrono = "=0.4.45"
clap = { version = "=4.6.7", features = ["derive"] }
flate2 = "=1.1.10"
libc = "=0.2.191"
rustyline = "=15.0.0"
serde = { version = "=1.0.229", features = ["derive"] }
serde_json = "=1.0.154"
serde_yaml = "=0.9.34"
tar = "=0.4.46"
# `--format toml`: structured results and help written as TOML.
toml = "=0.8.23"
ureq = "=3.5.1"
which = "=7.0.3"
zip = { version = "=2.6.1", default-features = false, features = ["deflate"] }
