[package]
name = "gas_dispenser"
version = "0.1.0"
edition = "2021"
publish = false

[dependencies]
aleo-rust = "*"
snarkvm-console = "0.16"
anyhow = "*"
