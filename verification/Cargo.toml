[package]
name = "rsrl"
version = "0.1.0"
edition = "2021"

[dependencies]
rand = "=0.8.8"
ndarray = "=0.15.6"
ndarray-linalg = "=0.16.0"
lfa = "*"
