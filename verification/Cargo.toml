[package]
name = "config_resolver"
version = "0.1.0"
edition = "2021"
publish = false

[dependencies]
serde_json = "1"
serde_yaml = "0.9"
toml = "0.8"
clap = "3"
xdg = "2"
