[package]
name = "sentc_crypto"
version = "0.1.0"
edition = "2021"
publish = false

[dependencies]
aes-gcm = "=0.10.3"
argon2 = "=0.5.3"
base64ct = { version = "=1.8.3", features = ["alloc"] }
digest = "=0.10.7"
ed25519-dalek = "=2.2.0"
hkdf = "=0.12.4"
openssl = "=0.10.81"
pem-rfc7468 = { version = "0.7", features = ["alloc"] }
pqcrypto-dilithium = "=0.5.0"
pqcrypto-traits = "=0.3.5"
rand_core = { version = "=0.6.4", features = ["getrandom"] }
serde = { version = "=1.0.229", features = ["derive"] }
serde_json = "=1.0.154"
sha2 = "=0.10.9"
x25519-dalek = { version = "=2.0.1", features = ["static_secrets"] }
