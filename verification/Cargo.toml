[package]
name = "astro_tfc"
version = "0.1.0"
edition = "2021"
publish = false

[dependencies]
shellexpand = "3"
thiserror = "1"
nalgebra = "0.32"
pyo3 = "0.20"
