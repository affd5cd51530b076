[package]
name = "kzg_rs_blend"
version = "0.1.0"
edition = "2021"
publish = false

[dependencies]
c-kzg = "=2.1.8"
kzg-rs = "=0.2.8"
bls12_381 = "=0.9.0"
sha2 = "=0.11.0"
