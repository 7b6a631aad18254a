[package]
name = "rustexp"
version = "0.1.0"
edition = "2021"
publish = false

[dependencies]
regex = "1"
sycamore = "0.8"
