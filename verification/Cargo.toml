[package]
name = "certified_reply"
version = "0.1.0"
edition = "2021"
publish = false

[dependencies]
base64 = "=0.21.7"
candid = "=0.10.39"
ic-agent = "=0.49.3"
ic-certification = "=3.2.0"
ic-verify-bls-signature = "=0.6.0"
serde_cbor = "=0.11.2"
sha2 = "=0.10.9"
tokio = { version = "=1.54.1", features = ["full"] }

[dev-dependencies]
leb128 = "=0.2.7"
