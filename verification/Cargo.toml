[package]
name = "sealevel_adapter"
version = "0.1.0"
edition = "2021"
publish = false

[dependencies]
base64 = "=0.22.1"
solana-account = "=2.2.1"
solana-commitment-config = "=2.2.1"
solana-hash = "=2.3.0"
solana-instruction = "=2.3.3"
solana-keypair = "=2.2.3"
solana-message = "=2.4.0"
solana-pubkey = "=2.4.0"
solana-rpc-client = { version = "=2.3.13", default-features = false }
solana-rpc-client-api = "=2.3.13"
solana-signature = "=2.3.0"
solana-signer = "=2.2.1"
solana-transaction = "=2.2.3"
solana-transaction-status-client-types = "=2.3.13"
