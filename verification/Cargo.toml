[package]
name = "tibia_markers"
version = "0.1.0"
edition = "2021"
publish = false

[dependencies]
anyhow = "1"
enigo = "0.1"
regex = "1"
