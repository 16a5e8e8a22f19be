[package]
name = "rex"
version = "0.1.0"
edition = "2021"
publish = false

[dependencies]
recursive_copy = "*"
tar_minimal = "*"
zstd = "*"
