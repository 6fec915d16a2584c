[package]
name = "fileserver"
version = "0.1.0"
edition = "2021"
publish = false

[dependencies]
chrono = "0.4"
image = "0.25"
webp = "0.3"
