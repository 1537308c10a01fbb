[package]
name = "seismic_evm"
version = "0.1.0"
edition = "2021"
publish = false

[dependencies]
alloy-primitives = "*"
aes-gcm = "*"
sha2 = "*"
schnorrkel = "*"
rand = "*"
