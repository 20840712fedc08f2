[package]
name = "superlu"
version = "0.1.0"
edition = "2021"
publish = false

[dependencies]
libc = "=0.2.190"
matrix = "=0.22.0"
superlu-sys = "=0.3.5"
