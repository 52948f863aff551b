[package]
name = "lazy_reach"
version = "0.1.0"
edition = "2021"
publish = false

[dependencies]
minilp = "0.2"
nalgebra = "0.31"
num-traits = "0.2"
rand = "0.8"
