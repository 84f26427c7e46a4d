[package]
name = "tpcdsgen_arrow"
version = "0.1.0"
edition = "2021"
publish = false

[dependencies]
arrow = { version = "*", default-features = false }
tpcdsgen = "*"
