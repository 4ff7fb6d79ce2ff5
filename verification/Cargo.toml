[package]
name = "liealg"
version = "0.1.0"
edition = "2021"
publish = false

[dependencies]
approx = "0.5"
nalgebra = "0.33"
num-traits = "0.2"
