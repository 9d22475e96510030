[package]
name = "cancel_this"
version = "0.4.0"
edition = "2021"
publish = false

[dependencies]
ctrlc = "3"
dyn-clone = "1"
lazy_static = "1"
log = "0.4"
memory-stats = "1"
pyo3 = "*"
