[package]
name = "ymap"
version = "0.1.0"
edition = "2021"
publish = false

[dependencies]
yrs = "=0.12.2"
lib0 = "=0.12.2"
pyo3 = "=0.29.3"
