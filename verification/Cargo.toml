[package]
name = "extension_builder"
version = "0.1.0"
edition = "2021"
publish = false

[dependencies]
anyhow = "1"
log = "0.4"
toml = "0.8"
which = "6"
