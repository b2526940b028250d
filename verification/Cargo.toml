[package]
name = "htlc"
version = "0.1.0"
edition = "2021"
publish = false

[dependencies]
sha2 = "*"
hex = "*"
candid = "*"
ic-cdk = "*"
ic-cdk-macros = "*"
icrc-ledger-types = "*"
serde = { version = "*", features = ["derive"] }
