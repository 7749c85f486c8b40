[package]
name = "tachyon_core"
version = "0.1.0"
edition = "2021"
publish = false

[dependencies]
arc-swap = "*"
once_cell = "*"
anyhow = "*"
