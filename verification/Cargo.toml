[package]
name = "prover_service"
version = "0.1.0"
edition = "2021"
publish = false

[dependencies]
aes-gcm = "*"
aws-nitro-enclaves-nsm-api = "*"
base64 = "*"
serde_bytes = "*"
serde_cbor = "*"
uuid = "*"
