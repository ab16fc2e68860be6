[package]
name = "steak_zapper"
version = "0.1.0"
edition = "2021"
publish = false

[dependencies]
astroport = "=5.9.0"
cosmwasm-std = "=1.5.11"
