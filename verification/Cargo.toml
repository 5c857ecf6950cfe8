[package]
name = "meep"
version = "0.1.0"
edition = "2021"
publish = false

[dependencies]
borsh = "=0.9.3"
metaplex-token-metadata = { version = "=0.0.1", features = ["no-entrypoint"] }
num-derive = "=0.3.3"
num-traits = "=0.2.19"
solana-program = "=1.14.29"
spl-token = { version = "=3.5.0", features = ["no-entrypoint"] }
thiserror = "=1.0.69"
