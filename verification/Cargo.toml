[package]
name = "polysynth"
version = "0.1.0"
edition = "2021"
publish = false

[dependencies]
anyhow = "1"
libm = "0.2"
cpal = "*"
midir = "*"
