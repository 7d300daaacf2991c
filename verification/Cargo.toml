[package]
name = "grmot"
version = "0.1.0"
edition = "2021"
publish = false

[dependencies]
nalgebra = "=0.32.6"
ndarray = { version = "=0.15.6", features = ["rayon"] }
num = "=0.4.3"
pyo3 = "=0.20.3"
rayon = "=1.12.0"
rustfft = "=6.4.1"
