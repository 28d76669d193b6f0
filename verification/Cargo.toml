[package]
name = "mpc_signing"
version = "0.1.0"
edition = "2021"
publish = false

[dependencies]
anyhow = "1"
curv-kzen = "0.9"
futures = "0.3"
hex = "0.4"
multi-party-ecdsa = "*"
reqwest = { version = "0.11", default-features = false, features = ["rustls-tls"] }
rocket = { version = "0.5", features = ["tls", "mtls"] }
round-based = { version = "0.1", features = ["async-runtime"] }
rustls-pemfile = "1"
secp256k1 = { version = "0.20", features = ["global-context"] }
serde = { version = "1", features = ["derive"] }
serde_json = "1"
sha256 = "1"
tokio = { version = "1", features = ["full"] }
