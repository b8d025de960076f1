[package]
name = "circuit_input"
version = "0.1.0"
edition = "2021"
publish = false

[dependencies]
plonky2 = "=0.1.4"
itertools = "=0.15.0"
serde = { version = "=1.0.229", features = ["derive"] }
