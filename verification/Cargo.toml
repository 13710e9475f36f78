[package]
name = "systemstats"
version = "0.1.0"
edition = "2021"
publish = false

[dependencies]
serde = { version = "=1.0.229", features = ["derive"] }
toml = "=1.2.1"
dirs = "=7.0.0"
log = "=0.4.35"
