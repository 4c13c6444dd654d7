[package]
name = "mpc_core"
version = "0.1.0"
edition = "2021"
publish = false

[dependencies]
curv-kzen = "=0.10.0"
kzen-paillier = "=0.4.3"
p256 = "=0.13.2"
