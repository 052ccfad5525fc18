[package]
name = "cargo_workspace"
version = "0.1.0"
edition = "2021"
publish = false

[dependencies]
clap = "4"
toml = "0.8"
