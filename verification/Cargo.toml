[package]
name = "rvt"
version = "0.1.0"
edition = "2021"
publish = false

[dependencies]
rustc-demangle = "0.1"
shell-escape = "0.1"
