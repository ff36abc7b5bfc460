[package]
name = "masp_shielded"
version = "0.1.0"
edition = "2021"
publish = false

[dependencies]
blake2b_simd = "1"
blake2s_simd = "1"
chacha20 = "0.8"
chacha20poly1305 = "0.9"
ff = "0.12"
group = "0.12"
jubjub = "0.9"
rand_core = { version = "0.6", features = ["getrandom"] }
