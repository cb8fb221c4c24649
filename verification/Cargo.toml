[package]
name = "geyser_plugin_sample"
version = "0.1.0"
edition = "2021"
publish = false

[dependencies]
crossbeam-channel = "*"
log = "*"
solana-geyser-plugin-interface = "*"

[dev-dependencies]
crossbeam-utils = "*"
