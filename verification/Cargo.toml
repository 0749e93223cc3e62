[package]
name = "magnifier"
version = "0.1.0"
edition = "2021"
publish = false

[dependencies]
libwayshot = "*"
raylib = "*"
