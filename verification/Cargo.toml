[package]
name = "hash_bench"
version = "0.1.0"
edition = "2021"
publish = false

[dependencies]
blake3 = "*"
polymur-hash = "*"
rand = "*"
umash = "*"
