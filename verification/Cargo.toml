[package]
name = "bounded_growth"
version = "0.1.0"
edition = "2021"
publish = false

[dependencies]
smallvec = "1"
yaml-rust = "0.4"
