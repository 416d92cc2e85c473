[package]
name = "membership_token"
version = "0.1.0"
edition = "2021"
publish = false

[dependencies]
anchor-lang = "=0.29.0"
mpl-token-metadata = { version = "=1.13.2", features = ["no-entrypoint"] }
solana-program = "=1.16.25"
spl-memo = { version = "=4.0.0", features = ["no-entrypoint"] }
spl-token = { version = "=4.0.0", features = ["no-entrypoint"] }

[dev-dependencies]
bincode = "=1.3.3"
