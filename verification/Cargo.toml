[package]
name = "im_online"
version = "0.1.0"
edition = "2021"
publish = false

[dependencies]
parity-scale-codec = "*"
schnorrkel = "*"
