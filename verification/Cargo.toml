[package]
name = "lodge"
version = "0.1.0"
edition = "2021"
publish = false

[dependencies]
clap = "*"
crossbeam-channel = "*"
dirs = "*"
ignore = "*"
