[package]
name = "regex_replacer"
version = "0.1.0"
edition = "2021"
publish = false

[dependencies]
regex = "1"
rayon = "1"
pyo3 = "0.20"
