[package]
name = "poseidon_tweak_hash"
version = "0.1.0"
edition = "2021"
publish = false

[dependencies]
num-bigint = "=0.4.8"
p3-baby-bear = "=0.3.0"
p3-field = "=0.3.0"
p3-monty-31 = "=0.3.0"
p3-poseidon2 = "=0.3.0"
p3-symmetric = "=0.3.0"
zkhash = "=0.2.0"
