[package]
name = "odns"
version = "0.1.0"
edition = "2021"
publish = false

[dependencies]
pqcrypto-kyber = "0.8"
pqcrypto-dilithium = "0.5"
pqcrypto-sphincsplus = "0.7"
pqcrypto-traits = "0.3"
chacha20poly1305 = "0.10"
hkdf = "0.12"
sha3 = "0.10"
rand = "0.8"
ed448-goldilocks-plus = "*"
url = "2"
base64 = "0.22"
blake3 = "1"
hex = "0.4"
hickory-proto = "0.24"
tokio = { version = "1", features = ["full"] }
tokio-rustls = { version = "0.26", default-features = false, features = ["ring"] }
rustls = { version = "0.23", default-features = false, features = ["ring", "std", "logging"] }
rustls-pemfile = "2"
clap = { version = "4", features = ["derive"] }
anyhow = "1"
tracing = "0.1"
tracing-subscriber = { version = "0.3", features = ["env-filter", "json"] }
axum = "0.7"
tower-http = { version = "0.5", features = ["trace"] }
serde = { version = "1", features = ["derive"] }
serde_json = "1"
