//! Asymmetric keys: ECIES over X25519.
//!
//! To encrypt for a public key, the sender makes a key pair for this one
//! message, agrees on a secret with the receiver's public key, derives a
//! symmetric key from it and encrypts under that key. The ciphertext is the
//! sender's public key for this message, 32 bytes, followed by the
//! symmetric ciphertext. The receiver agrees on the same secret from its
//! secret key and the sender's public key.

use vstd::prelude::*;
use vstd::slice::*;
use vstd::string::*;

use crate::alg::sym::{
    result_bytes, sym_decrypted, sym_encrypted, SymmetricKey, SYM_OVERHEAD,
};
use crate::bytes::{joined, same_text, to_array};
use crate::error::Error;
use crate::primitives::{
    bytes_of, hkdf_sha256, hkdf_sha256_derived, random_bytes, x25519, x25519_basepoint,
    x25519_product, x25519_public, AES_KEY_LENGTH, AES_NONCE_LENGTH, X25519_LENGTH,
};

verus! {

/// The algorithm tag of ECIES over X25519.
pub const ECIES_OUTPUT: &'static str = "ECIES-ed25519";

/// The purpose that the key derivation of ECIES is bound to.
pub const ECIES_KEY_INFO: &'static str = "ecies-ed25519";

/// A secret key for decryption, tagged with its algorithm.
#[derive(Debug, Clone, Copy, PartialEq, Eq)]
pub enum SecretKey {
    Ecies([u8; 32]),
}

/// A public key for encryption, tagged with its algorithm.
#[derive(Debug, Clone, Copy, PartialEq, Eq)]
pub enum PublicKey {
    Ecies([u8; 32]),
}

/// How much longer a ciphertext is than its plaintext: by the sender's
/// public key for the message and what symmetric encryption adds.
pub const ASYM_OVERHEAD: usize = X25519_LENGTH + SYM_OVERHEAD;

/// The symmetric key that both sides derive from the sender's public key
/// for one message and the secret they agreed on.
pub open spec fn ecies_message_key(ephemeral_public: Seq<u8>, shared: Seq<u8>) -> Option<Seq<u8>> {
    hkdf_sha256_derived(
        ephemeral_public + shared,
        ECIES_KEY_INFO.spec_bytes(),
        AES_KEY_LENGTH as nat,
    )
}

/// What `encrypt_with_ephemeral` gives for the receiver's public key, the
/// sender's secret key for this message, a nonce and the data.
pub open spec fn ecies_encrypted(
    receiver: Seq<u8>,
    ephemeral: Seq<u8>,
    nonce: Seq<u8>,
    data: Seq<u8>,
) -> Result<Seq<u8>, Error> {
    let ephemeral_public = x25519_public(ephemeral);
    match ecies_message_key(ephemeral_public, x25519_product(ephemeral, receiver)) {
        None => Err(Error::EncryptionFailed),
        Some(key) => match sym_encrypted(key, nonce, Seq::<u8>::empty(), data) {
            Ok(ciphertext) => Ok(ephemeral_public + ciphertext),
            Err(e) => Err(e),
        },
    }
}

/// What decryption with the secret key `secret` gives.
pub open spec fn ecies_decrypted(secret: Seq<u8>, ciphertext: Seq<u8>) -> Result<Seq<u8>, Error> {
    if ciphertext.len() <= X25519_LENGTH {
        Err(Error::DecryptionFailedCiphertextShort)
    } else {
        let ephemeral_public = ciphertext.subrange(0, X25519_LENGTH as int);
        let rest = ciphertext.subrange(X25519_LENGTH as int, ciphertext.len() as int);
        match ecies_message_key(ephemeral_public, x25519_product(secret, ephemeral_public)) {
            None => Err(Error::DecryptionFailed),
            Some(key) => sym_decrypted(key, Seq::<u8>::empty(), rest),
        }
    }
}

/// Whether `public` is the public key of the secret key `secret`.
pub open spec fn is_key_pair(secret: Seq<u8>, public: Seq<u8>) -> bool {
    secret.len() == X25519_LENGTH && public == x25519_public(secret)
}

/// The key pair that a generator makes of what the random number generator
/// gave: secret key and public key.
pub open spec fn static_keypair_of_random(random: Option<Seq<u8>>) -> Result<
    (Seq<u8>, Seq<u8>),
    Error,
> {
    match random {
        Some(bytes) if bytes.len() == X25519_LENGTH => Ok((bytes, x25519_public(bytes))),
        _ => Err(Error::KeyCreationFailed),
    }
}

/// The raw key material of a result that holds a key pair.
pub open spec fn result_keypair_bytes(res: Result<(SecretKey, PublicKey), Error>) -> Result<
    (Seq<u8>, Seq<u8>),
    Error,
> {
    match res {
        Ok((secret, public)) => Ok((secret.bytes(), public.bytes())),
        Err(e) => Err(e),
    }
}

fn basepoint() -> (point: [u8; 32])
    ensures
        point@ == x25519_basepoint(),
{
    let mut point = [0u8;32];
    point[0] = 9;
    assert(point@ =~= x25519_basepoint());
    point
}

fn message_key(ephemeral_public: &[u8], shared: &[u8]) -> (res: Option<SymmetricKey>)
    ensures
        match res {
            Some(key) => ecies_message_key(ephemeral_public@, shared@) == Some(key.bytes()),
            None => ecies_message_key(ephemeral_public@, shared@) is None,
        },
{
    let material = joined(ephemeral_public, shared);
    match hkdf_sha256(material.as_slice(), ECIES_KEY_INFO.as_bytes(), AES_KEY_LENGTH) {
        Some(derived) => match to_array::<32>(derived.as_slice()) {
            Some(key) => Some(SymmetricKey::Aes(key)),
            None => None,
        },
        None => None,
    }
}

impl SecretKey {
    /// The raw key material.
    pub open spec fn bytes(self) -> Seq<u8> {
        match self {
            SecretKey::Ecies(key) => key@,
        }
    }

    /// The algorithm tag of this key.
    pub open spec fn alg(self) -> Seq<char> {
        match self {
            SecretKey::Ecies(_) => ECIES_OUTPUT@,
        }
    }

    /// What `from_bytes` gives.
    pub open spec fn parsed(bytes: Seq<u8>, alg: Seq<char>) -> Result<Seq<u8>, Error> {
        if alg != ECIES_OUTPUT@ {
            Err(Error::AlgNotFound)
        } else if bytes.len() != X25519_LENGTH {
            Err(Error::DecodePrivateKeyFailed)
        } else {
            Ok(bytes)
        }
    }

    /// The raw key material of a result that holds a key.
    pub open spec fn result_key_bytes(res: Result<SecretKey, Error>) -> Result<Seq<u8>, Error> {
        match res {
            Ok(key) => Ok(key.bytes()),
            Err(e) => Err(e),
        }
    }

    /// The algorithm tag of this key.
    pub fn get_alg_str(&self) -> (alg: &'static str)
        ensures
            alg@ == self.alg(),
    {
        match self {
            SecretKey::Ecies(_) => ECIES_OUTPUT,
        }
    }

    /// The raw key material.
    pub fn as_bytes(&self) -> (bytes: &[u8])
        ensures
            bytes@ == self.bytes(),
            bytes@.len() == X25519_LENGTH,
    {
        match self {
            SecretKey::Ecies(key) => key.as_slice(),
        }
    }

    /// The key with the raw material `bytes` for the algorithm `alg_str`.
    ///
    /// Fails with `AlgNotFound` on an unknown algorithm tag and with
    /// `DecodePrivateKeyFailed` where `bytes` has not the length of a key.
    pub fn from_bytes(bytes: &[u8], alg_str: &str) -> (res: Result<SecretKey, Error>)
        ensures
            Self::result_key_bytes(res) == Self::parsed(bytes@, alg_str@),
    {
        if !same_text(alg_str, ECIES_OUTPUT) {
            return Err(Error::AlgNotFound);
        }
        match to_array::<32>(bytes) {
            Some(key) => Ok(SecretKey::Ecies(key)),
            None => Err(Error::DecodePrivateKeyFailed),
        }
    }

    /// The public key that belongs to this key.
    pub fn public_key(&self) -> (public: PublicKey)
        ensures
            is_key_pair(self.bytes(), public.bytes()),
    {
        match self {
            SecretKey::Ecies(secret) => {
                let base = basepoint();
                PublicKey::Ecies(x25519(secret, &base))
            },
        }
    }

    /// Decrypts `ciphertext`, which must have been encrypted for the public
    /// key of this key.
    ///
    /// Fails with `DecryptionFailedCiphertextShort` where `ciphertext` is
    /// too short to hold the sender's public key and anything more, and
    /// otherwise as symmetric decryption under the derived key does. A
    /// ciphertext for another key and a damaged ciphertext both end in
    /// `DecryptionFailed`.
    pub fn decrypt(&self, ciphertext: &[u8]) -> (res: Result<Vec<u8>, Error>)
        ensures
            result_bytes(res) == ecies_decrypted(self.bytes(), ciphertext@),
    {
        if ciphertext.len() <= X25519_LENGTH {
            return Err(Error::DecryptionFailedCiphertextShort);
        }
        let ephemeral_public = slice_subrange(ciphertext, 0, X25519_LENGTH);
        let rest = slice_subrange(ciphertext, X25519_LENGTH, ciphertext.len());
        let point = match to_array::<32>(ephemeral_public) {
            Some(point) => point,
            None => { return Err(Error::DecryptionFailed); },
        };
        let shared = match self {
            SecretKey::Ecies(secret) => x25519(secret, &point),
        };
        match message_key(ephemeral_public, shared.as_slice()) {
            Some(key) => key.decrypt(rest),
            None => Err(Error::DecryptionFailed),
        }
    }

    /// Wraps this key under the symmetric key `master_key`.
    ///
    /// Unwrapping the result with `decrypt_by_master_key` gives this key
    /// back.
    pub fn encrypt_by_master_key(&self, master_key: &SymmetricKey) -> (res: Result<Vec<u8>, Error>)
        ensures
            res matches Ok(wrapped) ==> wrapped@.len() == X25519_LENGTH + SYM_OVERHEAD,
            res matches Ok(wrapped) ==> secret_key_unwrapped(
                master_key.bytes(),
                wrapped@,
                self.alg(),
            ) == Ok::<Seq<u8>, Error>(self.bytes()),
            res matches Err(e) ==> e == Error::EncryptionFailedRng || e == Error::EncryptionFailed,
    {
        master_key.encrypt(self.as_bytes())
    }

    /// Unwraps a secret key of the algorithm `alg_str` that was wrapped
    /// under the symmetric key `master_key`.
    ///
    /// Fails as symmetric decryption does, and as `from_bytes` does on what
    /// was decrypted.
    pub fn decrypt_by_master_key(master_key: &SymmetricKey, encrypted_key: &[u8], alg_str: &str)
        -> (res: Result<SecretKey, Error>)
        ensures
            Self::result_key_bytes(res) == secret_key_unwrapped(
                master_key.bytes(),
                encrypted_key@,
                alg_str@,
            ),
    {
        match master_key.decrypt(encrypted_key) {
            Ok(bytes) => Self::from_bytes(bytes.as_slice(), alg_str),
            Err(e) => Err(e),
        }
    }
}

/// What unwrapping a secret key under a symmetric key gives: the wrapped
/// bytes are decrypted and read as a key of the algorithm `alg`.
pub open spec fn secret_key_unwrapped(master_key: Seq<u8>, wrapped: Seq<u8>, alg: Seq<char>)
    -> Result<Seq<u8>, Error> {
    match sym_decrypted(master_key, Seq::<u8>::empty(), wrapped) {
        Ok(bytes) => SecretKey::parsed(bytes, alg),
        Err(e) => Err(e),
    }
}

impl PublicKey {
    /// The raw key material.
    pub open spec fn bytes(self) -> Seq<u8> {
        match self {
            PublicKey::Ecies(key) => key@,
        }
    }

    /// The algorithm tag of this key.
    pub open spec fn alg(self) -> Seq<char> {
        match self {
            PublicKey::Ecies(_) => ECIES_OUTPUT@,
        }
    }

    /// What `from_bytes` gives.
    pub open spec fn parsed(bytes: Seq<u8>, alg: Seq<char>) -> Result<Seq<u8>, Error> {
        if alg != ECIES_OUTPUT@ {
            Err(Error::AlgNotFound)
        } else if bytes.len() != X25519_LENGTH {
            Err(Error::ImportPublicKeyFailed)
        } else {
            Ok(bytes)
        }
    }

    /// The raw key material of a result that holds a key.
    pub open spec fn result_key_bytes(res: Result<PublicKey, Error>) -> Result<Seq<u8>, Error> {
        match res {
            Ok(key) => Ok(key.bytes()),
            Err(e) => Err(e),
        }
    }

    /// The algorithm tag of this key.
    pub fn get_alg_str(&self) -> (alg: &'static str)
        ensures
            alg@ == self.alg(),
    {
        match self {
            PublicKey::Ecies(_) => ECIES_OUTPUT,
        }
    }

    /// The raw key material.
    pub fn as_bytes(&self) -> (bytes: &[u8])
        ensures
            bytes@ == self.bytes(),
            bytes@.len() == X25519_LENGTH,
    {
        match self {
            PublicKey::Ecies(key) => key.as_slice(),
        }
    }

    /// The key with the raw material `bytes` for the algorithm `alg_str`.
    ///
    /// Fails with `AlgNotFound` on an unknown algorithm tag and with
    /// `ImportPublicKeyFailed` where `bytes` has not the length of a key.
    pub fn from_bytes(bytes: &[u8], alg_str: &str) -> (res: Result<PublicKey, Error>)
        ensures
            Self::result_key_bytes(res) == Self::parsed(bytes@, alg_str@),
    {
        if !same_text(alg_str, ECIES_OUTPUT) {
            return Err(Error::AlgNotFound);
        }
        match to_array::<32>(bytes) {
            Some(key) => Ok(PublicKey::Ecies(key)),
            None => Err(Error::ImportPublicKeyFailed),
        }
    }

    /// Encrypts `data` for this key with the secret key `ephemeral`, made
    /// for this one message, and the nonce `nonce`.
    ///
    /// Neither may be used for a second message: `encrypt` draws both
    /// afresh on each call. Fails with `EncryptionFailed` where the nonce has
    /// not twelve bytes or a primitive refuses its input. The owner of the
    /// secret key that belongs to this key decrypts the result to `data`.
    pub fn encrypt_with_ephemeral(&self, ephemeral: &[u8; 32], nonce: &[u8], data: &[u8]) -> (res:
        Result<Vec<u8>, Error>)
        ensures
            result_bytes(res) == ecies_encrypted(self.bytes(), ephemeral@, nonce@, data@),
            res matches Ok(ciphertext) ==> ciphertext@.len() == data@.len() + ASYM_OVERHEAD,
            res matches Ok(ciphertext) ==> forall|secret: Seq<u8>|
                is_key_pair(secret, self.bytes()) ==> #[trigger] ecies_decrypted(
                    secret,
                    ciphertext@,
                ) == Ok::<Seq<u8>, Error>(data@),
    {
        let base = basepoint();
        let ephemeral_public = x25519(ephemeral, &base);
        let shared = match self {
            PublicKey::Ecies(receiver) => x25519(ephemeral, receiver),
        };
        let key = match message_key(ephemeral_public.as_slice(), shared.as_slice()) {
            Some(key) => key,
            None => { return Err(Error::EncryptionFailed); },
        };
        let aad: [u8; 0] = [];
        assert(aad@ =~= Seq::<u8>::empty());
        match key.encrypt_with_nonce(nonce, aad.as_slice(), data) {
            Ok(inner) => {
                let ciphertext = joined(ephemeral_public.as_slice(), inner.as_slice());
                proof {
                    let n = X25519_LENGTH as int;
                    assert(ciphertext@.subrange(0, n) =~= ephemeral_public@);
                    assert(ciphertext@.subrange(n, ciphertext@.len() as int) =~= inner@);
                    assert forall|secret: Seq<u8>| is_key_pair(secret, self.bytes()) implies (
                    #[trigger] ecies_decrypted(secret, ciphertext@)) == Ok::<Seq<u8>, Error>(
                        data@,
                    ) by {
                        assert(shared@ == x25519_product(secret, x25519_public(ephemeral@)));
                    }
                }
                Ok(ciphertext)
            },
            Err(e) => Err(e),
        }
    }

    /// Encrypts `data` for this key.
    ///
    /// Fails with `EncryptionFailedRng` where the system gives no random
    /// bytes and with `EncryptionFailed` where the cipher refuses the input.
    /// The owner of the secret key that belongs to this key decrypts the
    /// result to `data`.
    pub fn encrypt(&self, data: &[u8]) -> (res: Result<Vec<u8>, Error>)
        ensures
            res matches Ok(ciphertext) ==> ciphertext@.len() == data@.len() + ASYM_OVERHEAD,
            res matches Ok(ciphertext) ==> forall|secret: Seq<u8>|
                is_key_pair(secret, self.bytes()) ==> #[trigger] ecies_decrypted(
                    secret,
                    ciphertext@,
                ) == Ok::<Seq<u8>, Error>(data@),
            res matches Err(e) ==> e == Error::EncryptionFailedRng || e == Error::EncryptionFailed,
    {
        let ephemeral = match random_bytes(X25519_LENGTH) {
            Some(bytes) => match to_array::<32>(bytes.as_slice()) {
                Some(ephemeral) => ephemeral,
                None => { return Err(Error::EncryptionFailedRng); },
            },
            None => { return Err(Error::EncryptionFailedRng); },
        };
        match random_bytes(AES_NONCE_LENGTH) {
            Some(nonce) => self.encrypt_with_ephemeral(&ephemeral, nonce.as_slice(), data),
            None => Err(Error::EncryptionFailedRng),
        }
    }
}

/// The key pair that a generator makes of what the random number generator
/// gave: the bytes are the secret key, where there are as many as a key
/// needs.
pub fn static_keypair_from_random(random: Option<Vec<u8>>) -> (res: Result<
    (SecretKey, PublicKey),
    Error,
>)
    ensures
        result_keypair_bytes(res) == static_keypair_of_random(bytes_of(random)),
{
    match random {
        Some(bytes) => match to_array::<32>(bytes.as_slice()) {
            Some(key) => {
                let secret = SecretKey::Ecies(key);
                let public = secret.public_key();
                Ok((secret, public))
            },
            None => Err(Error::KeyCreationFailed),
        },
        None => Err(Error::KeyCreationFailed),
    }
}

/// Generates a fresh key pair.
///
/// Fails with `KeyCreationFailed` where the system gives no random
/// bytes; `static_keypair_from_random` says what is made of them.
pub fn generate_static_keypair() -> (res: Result<(SecretKey, PublicKey), Error>)
    ensures
        res matches Ok((secret, public)) ==> is_key_pair(secret.bytes(), public.bytes()),
        res matches Err(e) ==> e == Error::KeyCreationFailed,
{
    static_keypair_from_random(random_bytes(X25519_LENGTH))
}

} // verus!
