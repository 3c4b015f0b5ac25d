[package]
name = "file_rename"
version = "0.1.0"
edition = "2021"
publish = false

[dependencies]
anyhow = "*"
clap = "*"
dialoguer = "*"
id3 = "*"
log = "*"
simple_logger = "*"

[dev-dependencies]
tempfile = "*"
