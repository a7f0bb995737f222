[package]
name = "vdl"
version = "0.1.0"
edition = "2021"
publish = false

[dependencies]
basic-toml = "0.1"
clap = { version = "4", features = ["derive"] }
clap_complete = "4"
dirs = "*"
eyre = "0.6"
indicatif = "0.17"
serde = { version = "1", features = ["derive"] }
serde_json = "1"
signal-hook = "0.3"
ureq = "3"
