[package]
name = "fraction_manager"
version = "0.1.0"
edition = "2021"
publish = false

[dependencies]
solana-program = "*"
spl-token = { version = "*", features = ["no-entrypoint"] }
metaplex-token-metadata = { version = "*", features = ["no-entrypoint"] }
metaplex-token-vault = { version = "*", features = ["no-entrypoint"] }
borsh = "0.9"
