[package]
name = "pallet-messaging"
version = "0.1.0"
edition = "2021"
publish = false

[dependencies]
frame-support = "*"
frame-system = "*"
sp-runtime = "*"
sp-std = "*"

[dev-dependencies]
sp-core = "*"
