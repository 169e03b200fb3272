[package]
name = "banana_runtime"
version = "0.1.0"
edition = "2021"
publish = false

[dependencies]
sp-runtime = "=39.0.5"
sp-arithmetic = "=2.0.1"
parity-scale-codec = { version = "=1.3.7", features = ["derive"] }
primitive-types = "=0.7.3"
pallet-balances = { version = "=2.0.1", default-features = false }
