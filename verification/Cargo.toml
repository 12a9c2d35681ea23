[package]
name = "external_delegate_token_master"
version = "0.1.0"
edition = "2021"
publish = false

[dependencies]
quasar-lang = "=0.0.0"
solana-address = { version = "=2.9.0", features = ["curve25519"] }
solana-keccak-hasher = { version = "=3.1.0", features = ["sha3"] }
solana-nostd-secp256k1-recover = "=0.2.0"

[dev-dependencies]
k256 = { version = "=0.13.4", features = ["ecdsa"] }
sha3 = "0.10"
