[package]
name = "bounty_benchmarking"
version = "0.1.0"
edition = "2021"
publish = false

[dependencies]
frame-benchmarking = "2.0.0"
frame-support = "2.0.0"
frame-system = "2.0.0"
pallet-balances = "2.0.0"
sp-arithmetic = "2.0.0"
sp-runtime = "2.0.0"
sp-std = "2.0.0"
