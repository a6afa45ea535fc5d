[package]
name = "dummy_bitcoin_canister"
version = "0.1.0"
edition = "2021"

[dependencies]
serde = "=1.0.229"
serde_json = "=1.0.151"
candid = "=0.10.37"
ic-cdk = "=0.20.3"
ic-http-certification = "=4.0.0"
