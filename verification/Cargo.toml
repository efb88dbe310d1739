[package]
name = "eth_pairings"
version = "0.1.0"
edition = "2021"
publish = false

[dependencies]
num-bigint = "0.4"
hex = "0.4"
libfuzzer-sys = "0.4"
eth_pairings_cpp = "*"
