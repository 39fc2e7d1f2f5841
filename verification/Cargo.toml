[package]
name = "stage_core"
version = "0.1.0"
edition = "2021"
publish = false

[dependencies]
ethers-core = "=2.0.14"

[dev-dependencies]
hex = "=0.4.3"
bincode = "=1.3.3"
k256 = "=0.13.4"
