[package]
name = "apt_vulns_xyz"
version = "0.1.0"
edition = "2021"
publish = false

[dependencies]
anstyle = "1"
anyhow = "1"
clap = { version = "4", features = ["derive"] }
env_logger = "*"
fd-lock = "*"
hex = "0.4"
log = "0.4"
serde = { version = "1", features = ["derive"] }
sha2 = "0.10"
tar = "0.4"
toml = "*"
