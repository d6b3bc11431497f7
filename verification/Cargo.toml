[package]
name = "mandelbrot_rust"
version = "0.1.0"
edition = "2021"

[dependencies]
ndarray = "0.15"
numpy = "0.20"
pyo3 = "0.20"
rayon = "1"
