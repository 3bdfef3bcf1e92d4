[package]
name = "hyperfine_core"
version = "0.1.0"
edition = "2021"
publish = false

[dependencies]
rand = "0.8"
shell-words = "1"
libc = "0.2"
