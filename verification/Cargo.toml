[package]
name = "lnwallet"
version = "0.1.0"
edition = "2021"
publish = false

[dependencies]
bip32 = { version = "=0.6.0", features = ["alloc"] }
bip39 = "=3.0.0"
bitcoin = "=0.32.102"
hex = "=0.4.3"
lightning = "=0.2.7"
lightning-invoice = "=0.34.1"
lightning-block-sync = { version = "=0.2.0", features = ["rpc-client"] }
