[package]
name = "threshold_ecdsa"
version = "0.1.0"
edition = "2021"
publish = false

[dependencies]
curv-kzen = "0.9"
kzen-paillier = "0.4"
multi-party-ecdsa = "0.8"
neon = { version = "0.10", default-features = false, features = ["napi-6"] }
serde = { version = "1", features = ["derive"] }
serde_json = "1"
sha2 = "0.9"
zk-paillier = "0.4"
