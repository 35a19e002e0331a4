[package]
name = "luxor_fs"
version = "0.1.0"
edition = "2021"
publish = false

[dependencies]
nix = "0.26"
memmap2 = "0.9"

[dev-dependencies]
tempfile = "3"
