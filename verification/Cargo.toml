[package]
name = "tsgql"
version = "0.1.0"
edition = "2021"
publish = false

[dependencies]
anyhow = "1"
apollo-encoder = "0.1"
mimalloc = "*"
napi = "1"
napi-derive = "1"
serde_json = "1"
swc = "*"
swc_common = "*"
swc_ecmascript = "*"
