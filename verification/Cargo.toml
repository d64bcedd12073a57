[package]
name = "monty_pyrs"
version = "0.1.0"
edition = "2021"
publish = false

[dependencies]
num_cpus = "1"

[dev-dependencies]
rand_core = "0.6"
rand_xorshift = "0.3"
