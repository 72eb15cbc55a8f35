[package]
name = "bosminer"
version = "0.1.0"
edition = "2021"
publish = false

[dependencies]
bitcoin_hashes = "0.7"
lazy_static = "1"
clap = "2"
