[package]
name = "conditional_s3_fetch"
version = "0.1.0"
edition = "2021"
publish = false

[dependencies]
aws-sdk-s3 = { version = "1", default-features = false }
bytes = "1"
cbor4ii = { version = "*", features = ["serde1"] }
serde = "1"
serde_json = "1"
simd-json = "*"
thiserror = "2"
tracing = "0.1"
