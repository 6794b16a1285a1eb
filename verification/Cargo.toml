[package]
name = "nutpie"
version = "0.1.0"
edition = "2021"
publish = false

[dependencies]
anyhow = "1"
bytemuck = "1"
arrow = "=55.2.0"
nuts-rs = "=0.16.1"
rand = "=0.9.5"
