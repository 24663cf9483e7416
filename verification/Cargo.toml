[package]
name = "olympus_air"
version = "0.1.0"
edition = "2021"
publish = false

[dependencies]
anyhow = "1"
colored = "2"
crossterm = "0.25"
env_logger = "0.10"
log = "0.4"
reqwest = { version = "0.11", default-features = false, features = ["blocking"] }
tempfile = "3"
termsize = "0.1"
tui = "0.19"
