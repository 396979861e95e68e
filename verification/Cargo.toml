[package]
name = "pagestate"
version = "0.1.0"
edition = "2021"
publish = false

[dependencies]
sycamore = "0.8"
