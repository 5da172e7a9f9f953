[package]
name = "floor_swap"
version = "0.1.0"
edition = "2021"
publish = false

[dependencies]
solana-program = "=1.18.26"
mpl-core = "=0.8.0"

[dev-dependencies]
borsh = "=0.10.4"
