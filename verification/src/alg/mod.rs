//! The algorithm families behind the key types: one closed set of variants
//! per kind of key, selected by the algorithm tag that travels with a key.

pub mod asym;
pub mod ed25519_dilithium_hybrid;
pub mod pw_hash;
pub mod sign;
pub mod sym;
