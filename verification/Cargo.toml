[package]
name = "wash_config"
version = "0.1.0"
edition = "2021"
publish = false

[dependencies]
semver = "1"
anyhow = "1"
serde_json = "1"
term-table = "*"
