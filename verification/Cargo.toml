[package]
name = "build_libunwind"
version = "0.1.0"
edition = "2021"
publish = false

[dependencies]
anyhow = "1"
cc = "1"
fs-err = "2"
