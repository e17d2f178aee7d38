[package]
name = "sol"
version = "0.1.0"
edition = "2021"
publish = false

[dependencies]
mpl-candy-machine = { version = "=4.6.0", features = ["no-entrypoint"] }
mpl-token-metadata = { version = "=1.7.0", features = ["no-entrypoint"] }
mpl-token-auth-rules = { version = "=1.0.0", features = ["no-entrypoint"] }
anchor-lang = "=0.26.0"
solana-program = "=1.14.29"
spl-token = { version = "=3.5.0", features = ["no-entrypoint"] }
spl-associated-token-account = { version = "=1.1.3", features = ["no-entrypoint"] }
rust-base58 = "=0.0.4"
anyhow = "=1.0.104"
rustler = "=0.39.0"
