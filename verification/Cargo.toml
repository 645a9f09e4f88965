[package]
name = "gptdump"
version = "0.1.8"
edition = "2021"
publish = false

[dependencies]
getopts = "*"
