[package]
name = "super_analyzer"
version = "0.1.0"
edition = "2021"
publish = false

[dependencies]
clap = "2"
colored = "1"
env_logger = { version = "0.4", default-features = false }
log = "0.3"
open = "1"
serde = "1"
toml = "0.4"
