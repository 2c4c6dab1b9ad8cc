//! End-to-end encryption core: typed keys, authenticated encryption, and the
//! key lifecycle of users and groups, including group key rotation.
//!
//! Every operation is a function of its arguments and of fresh randomness; no
//! state is kept between calls. The operations that draw randomness have a
//! second form, whose name ends in `_with`, `_with_nonce` or `_with_entropy`,
//! which takes the random bytes as an argument and is a function of its
//! arguments alone.
//!
//! Cryptographic primitives and text encodings are called through the small
//! set of trusted functions in [`primitives`] and [`encoding`]. Their
//! contracts are taken on trust; everything else is proved from them.

pub mod alg;
pub mod bytes;
pub mod crypto;
pub mod encoding;
pub mod error;
pub mod file;
pub mod group;
pub mod group_rank_check;
pub mod primitives;
pub mod server;
pub mod user;
pub mod util;
