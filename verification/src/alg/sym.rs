//! Symmetric keys: authenticated encryption with AES-256-GCM.
//!
//! A ciphertext is the nonce, twelve bytes, followed by what the cipher
//! produced. Decryption splits the nonce off again.

use vstd::prelude::*;
use vstd::slice::*;

use crate::alg::asym::{ecies_decrypted, is_key_pair, PublicKey, SecretKey, ASYM_OVERHEAD};
use crate::bytes::{joined, same_text, to_array};
use crate::error::Error;
use crate::primitives::{
    aes_gcm_open, aes_gcm_opened, aes_gcm_seal, aes_gcm_sealed, random_bytes, AES_KEY_LENGTH,
    AES_NONCE_LENGTH, AES_TAG_LENGTH,
};

verus! {

/// The algorithm tag of AES-256-GCM.
pub const AES_GCM_OUTPUT: &'static str = "AES-GCM-256";

/// A symmetric key, tagged with its algorithm.
#[derive(Debug, Clone, Copy, PartialEq, Eq)]
pub enum SymmetricKey {
    Aes([u8; 32]),
}

/// How much longer a ciphertext is than its plaintext: by the nonce and
/// the tag.
pub const SYM_OVERHEAD: usize = AES_NONCE_LENGTH + AES_TAG_LENGTH;

/// What `encrypt_with_nonce` gives: the nonce followed by the sealed
/// plaintext, where the nonce has the length that the cipher needs.
pub open spec fn sym_encrypted(key: Seq<u8>, nonce: Seq<u8>, aad: Seq<u8>, plaintext: Seq<u8>)
    -> Result<Seq<u8>, Error> {
    if nonce.len() != AES_NONCE_LENGTH {
        Err(Error::EncryptionFailed)
    } else {
        match aes_gcm_sealed(key, nonce, aad, plaintext) {
            Some(sealed) => Ok(nonce + sealed),
            None => Err(Error::EncryptionFailed),
        }
    }
}

/// What decryption gives: the ciphertext is split into nonce and sealed
/// plaintext, and the cipher decides whether the two fit the key and the
/// associated data.
pub open spec fn sym_decrypted(key: Seq<u8>, aad: Seq<u8>, ciphertext: Seq<u8>) -> Result<
    Seq<u8>,
    Error,
> {
    if ciphertext.len() <= AES_NONCE_LENGTH {
        Err(Error::DecryptionFailedCiphertextShort)
    } else {
        let nonce = ciphertext.subrange(0, AES_NONCE_LENGTH as int);
        let sealed = ciphertext.subrange(AES_NONCE_LENGTH as int, ciphertext.len() as int);
        match aes_gcm_opened(key, nonce, aad, sealed) {
            Some(plaintext) => Ok(plaintext),
            None => Err(Error::DecryptionFailed),
        }
    }
}

/// The bytes of a result that holds a buffer.
pub open spec fn result_bytes(res: Result<Vec<u8>, Error>) -> Result<Seq<u8>, Error> {
    match res {
        Ok(bytes) => Ok(bytes@),
        Err(e) => Err(e),
    }
}

/// The key that a symmetric key generator makes of what the random number
/// generator gave.
pub open spec fn sym_key_of_random(random: Option<Seq<u8>>) -> Result<Seq<u8>, Error> {
    match random {
        Some(bytes) if bytes.len() == AES_KEY_LENGTH => Ok(bytes),
        _ => Err(Error::KeyCreationFailed),
    }
}

impl SymmetricKey {
    /// The raw key material.
    pub open spec fn bytes(self) -> Seq<u8> {
        match self {
            SymmetricKey::Aes(key) => key@,
        }
    }

    /// The algorithm tag of this key.
    pub open spec fn alg(self) -> Seq<char> {
        match self {
            SymmetricKey::Aes(_) => AES_GCM_OUTPUT@,
        }
    }

    /// What `from_bytes` gives.
    pub open spec fn parsed(bytes: Seq<u8>, alg: Seq<char>) -> Result<Seq<u8>, Error> {
        if alg != AES_GCM_OUTPUT@ {
            Err(Error::AlgNotFound)
        } else if bytes.len() != AES_KEY_LENGTH {
            Err(Error::KeyDecryptFailed)
        } else {
            Ok(bytes)
        }
    }

    /// The raw key material of a result that holds a key.
    pub open spec fn result_key_bytes(res: Result<SymmetricKey, Error>) -> Result<Seq<u8>, Error> {
        match res {
            Ok(key) => Ok(key.bytes()),
            Err(e) => Err(e),
        }
    }

    /// The algorithm tag of this key.
    pub fn get_alg_str(&self) -> (alg: &'static str)
        ensures
            alg@ == self.alg(),
    {
        match self {
            SymmetricKey::Aes(_) => AES_GCM_OUTPUT,
        }
    }

    /// The raw key material.
    pub fn as_bytes(&self) -> (bytes: &[u8])
        ensures
            bytes@ == self.bytes(),
            bytes@.len() == AES_KEY_LENGTH,
    {
        match self {
            SymmetricKey::Aes(key) => key.as_slice(),
        }
    }

    /// The key with the raw material `bytes` for the algorithm `alg_str`.
    ///
    /// Fails with `AlgNotFound` on an unknown algorithm tag and with
    /// `KeyDecryptFailed` where `bytes` has not the length of a key.
    pub fn from_bytes(bytes: &[u8], alg_str: &str) -> (res: Result<SymmetricKey, Error>)
        ensures
            Self::result_key_bytes(res) == Self::parsed(bytes@, alg_str@),
    {
        if !same_text(alg_str, AES_GCM_OUTPUT) {
            return Err(Error::AlgNotFound);
        }
        match to_array::<32>(bytes) {
            Some(key) => Ok(SymmetricKey::Aes(key)),
            None => Err(Error::KeyDecryptFailed),
        }
    }

    /// The key that a generator makes of what the random number generator
    /// gave: the bytes themselves, where there are as many as a key needs.
    pub fn from_random(random: Option<Vec<u8>>) -> (res: Result<SymmetricKey, Error>)
        ensures
            Self::result_key_bytes(res) == sym_key_of_random(crate::primitives::bytes_of(random)),
    {
        match random {
            Some(bytes) => match to_array::<32>(bytes.as_slice()) {
                Some(key) => Ok(SymmetricKey::Aes(key)),
                None => Err(Error::KeyCreationFailed),
            },
            None => Err(Error::KeyCreationFailed),
        }
    }

    /// Encrypts `data` under this key with the nonce `nonce`, binding the
    /// associated data `aad`.
    ///
    /// A nonce must never be used twice with one key: `encrypt` and
    /// `encrypt_with_aad` draw a fresh one on each call. Fails with
    /// `EncryptionFailed` where the nonce has not twelve bytes or the cipher
    /// refuses the input.
    pub fn encrypt_with_nonce(&self, nonce: &[u8], aad: &[u8], data: &[u8]) -> (res: Result<
        Vec<u8>,
        Error,
    >)
        ensures
            result_bytes(res) == sym_encrypted(self.bytes(), nonce@, aad@, data@),
            res matches Ok(ciphertext) ==> ciphertext@.len() == data@.len() + SYM_OVERHEAD,
            res matches Ok(ciphertext) ==> sym_decrypted(self.bytes(), aad@, ciphertext@) == Ok::<
                Seq<u8>,
                Error,
            >(data@),
    {
        if nonce.len() != AES_NONCE_LENGTH {
            return Err(Error::EncryptionFailed);
        }
        match aes_gcm_seal(self.as_bytes(), nonce, aad, data) {
            Some(sealed) => {
                let ciphertext = joined(nonce, sealed.as_slice());
                proof {
                    let n = AES_NONCE_LENGTH as int;
                    assert(ciphertext@.subrange(0, n) =~= nonce@);
                    assert(ciphertext@.subrange(n, ciphertext@.len() as int) =~= sealed@);
                }
                Ok(ciphertext)
            },
            None => Err(Error::EncryptionFailed),
        }
    }

    /// Encrypts `data` under this key and binds the associated data `aad`,
    /// which must be given again to decrypt.
    ///
    /// Fails with `EncryptionFailedRng` where the system gives no random
    /// nonce and with `EncryptionFailed` where the cipher refuses the input.
    /// Decrypting the result under this key and `aad` gives `data` back.
    pub fn encrypt_with_aad(&self, data: &[u8], aad: &[u8]) -> (res: Result<Vec<u8>, Error>)
        ensures
            res matches Ok(ciphertext) ==> ciphertext@.len() == data@.len() + SYM_OVERHEAD,
            res matches Ok(ciphertext) ==> sym_decrypted(self.bytes(), aad@, ciphertext@) == Ok::<
                Seq<u8>,
                Error,
            >(data@),
            res matches Err(e) ==> e == Error::EncryptionFailedRng || e == Error::EncryptionFailed,
    {
        match random_bytes(AES_NONCE_LENGTH) {
            Some(nonce) => self.encrypt_with_nonce(nonce.as_slice(), aad, data),
            None => Err(Error::EncryptionFailedRng),
        }
    }

    /// Encrypts `data` under this key.
    ///
    /// Fails as `encrypt_with_aad` does. Decrypting the result under this
    /// key gives `data` back.
    pub fn encrypt(&self, data: &[u8]) -> (res: Result<Vec<u8>, Error>)
        ensures
            res matches Ok(ciphertext) ==> ciphertext@.len() == data@.len() + SYM_OVERHEAD,
            res matches Ok(ciphertext) ==> sym_decrypted(
                self.bytes(),
                Seq::<u8>::empty(),
                ciphertext@,
            ) == Ok::<Seq<u8>, Error>(data@),
            res matches Err(e) ==> e == Error::EncryptionFailedRng || e == Error::EncryptionFailed,
    {
        let aad: [u8; 0] = [];
        let res = self.encrypt_with_aad(data, aad.as_slice());
        assert(aad@ =~= Seq::<u8>::empty());
        res
    }

    /// Decrypts `ciphertext`, which must have been encrypted under this key
    /// with the associated data `aad`.
    ///
    /// Fails with `DecryptionFailedCiphertextShort` where `ciphertext` is
    /// too short to hold a nonce and anything more, and with
    /// `DecryptionFailed` where key, associated data and ciphertext do not
    /// fit together.
    pub fn decrypt_with_aad(&self, ciphertext: &[u8], aad: &[u8]) -> (res: Result<Vec<u8>, Error>)
        ensures
            result_bytes(res) == sym_decrypted(self.bytes(), aad@, ciphertext@),
    {
        if ciphertext.len() <= AES_NONCE_LENGTH {
            return Err(Error::DecryptionFailedCiphertextShort);
        }
        let nonce = slice_subrange(ciphertext, 0, AES_NONCE_LENGTH);
        let sealed = slice_subrange(ciphertext, AES_NONCE_LENGTH, ciphertext.len());
        match aes_gcm_open(self.as_bytes(), nonce, aad, sealed) {
            Some(plaintext) => Ok(plaintext),
            None => Err(Error::DecryptionFailed),
        }
    }

    /// Decrypts `ciphertext`, which must have been encrypted under this key
    /// without associated data. Fails as `decrypt_with_aad` does.
    pub fn decrypt(&self, ciphertext: &[u8]) -> (res: Result<Vec<u8>, Error>)
        ensures
            result_bytes(res) == sym_decrypted(self.bytes(), Seq::<u8>::empty(), ciphertext@),
    {
        let aad: [u8; 0] = [];
        assert(aad@ =~= Seq::<u8>::empty());
        self.decrypt_with_aad(ciphertext, aad.as_slice())
    }

    /// Wraps this key for the owner of the public key `master_key`.
    ///
    /// Unwrapping the result with `decrypt_key_by_master_key` and the
    /// secret key that belongs to `master_key` gives this key back.
    pub fn encrypt_key_with_master_key(&self, master_key: &PublicKey) -> (res: Result<
        Vec<u8>,
        Error,
    >)
        ensures
            res matches Ok(wrapped) ==> wrapped@.len() == AES_KEY_LENGTH + ASYM_OVERHEAD,
            res matches Ok(wrapped) ==> forall|secret: Seq<u8>|
                is_key_pair(secret, master_key.bytes()) ==> #[trigger] sym_key_unwrapped_by_secret(
                    secret,
                    wrapped@,
                    self.alg(),
                ) == Ok::<Seq<u8>, Error>(self.bytes()),
            res matches Err(e) ==> e == Error::EncryptionFailedRng || e == Error::EncryptionFailed,
    {
        master_key.encrypt(self.as_bytes())
    }

    /// Unwraps a symmetric key of the algorithm `alg_str` that was wrapped
    /// for the owner of the secret key `master_key`.
    ///
    /// Fails as asymmetric decryption does, and as `from_bytes` does on
    /// what was decrypted.
    pub fn decrypt_key_by_master_key(master_key: &SecretKey, encrypted_key: &[u8], alg_str: &str)
        -> (res: Result<SymmetricKey, Error>)
        ensures
            Self::result_key_bytes(res) == sym_key_unwrapped_by_secret(
                master_key.bytes(),
                encrypted_key@,
                alg_str@,
            ),
    {
        match master_key.decrypt(encrypted_key) {
            Ok(bytes) => Self::from_bytes(bytes.as_slice(), alg_str),
            Err(e) => Err(e),
        }
    }

    /// Wraps this key under the symmetric key `master_key`.
    ///
    /// Unwrapping the result with `decrypt_key_by_sym_key` gives this key
    /// back.
    pub fn encrypt_with_sym_key(&self, master_key: &SymmetricKey) -> (res: Result<Vec<u8>, Error>)
        ensures
            res matches Ok(wrapped) ==> wrapped@.len() == AES_KEY_LENGTH + SYM_OVERHEAD,
            res matches Ok(wrapped) ==> sym_key_unwrapped(
                master_key.bytes(),
                wrapped@,
                self.alg(),
            ) == Ok::<Seq<u8>, Error>(self.bytes()),
            res matches Err(e) ==> e == Error::EncryptionFailedRng || e == Error::EncryptionFailed,
    {
        master_key.encrypt(self.as_bytes())
    }

    /// Unwraps a symmetric key of the algorithm `alg_str` that was wrapped
    /// under the symmetric key `master_key`.
    ///
    /// Fails as `decrypt` does, and as `from_bytes` does on what was
    /// decrypted.
    pub fn decrypt_key_by_sym_key(master_key: &SymmetricKey, encrypted_key: &[u8], alg_str: &str)
        -> (res: Result<SymmetricKey, Error>)
        ensures
            Self::result_key_bytes(res) == sym_key_unwrapped(
                master_key.bytes(),
                encrypted_key@,
                alg_str@,
            ),
    {
        match master_key.decrypt(encrypted_key) {
            Ok(bytes) => Self::from_bytes(bytes.as_slice(), alg_str),
            Err(e) => Err(e),
        }
    }
}

/// What unwrapping a symmetric key under a symmetric key gives: the wrapped
/// bytes are decrypted and read as a key of the algorithm `alg`.
pub open spec fn sym_key_unwrapped(master_key: Seq<u8>, wrapped: Seq<u8>, alg: Seq<char>)
    -> Result<Seq<u8>, Error> {
    match sym_decrypted(master_key, Seq::<u8>::empty(), wrapped) {
        Ok(bytes) => SymmetricKey::parsed(bytes, alg),
        Err(e) => Err(e),
    }
}

/// What unwrapping a symmetric key with a secret key gives: the wrapped
/// bytes are decrypted and read as a key of the algorithm `alg`.
pub open spec fn sym_key_unwrapped_by_secret(secret: Seq<u8>, wrapped: Seq<u8>, alg: Seq<char>)
    -> Result<Seq<u8>, Error> {
    match ecies_decrypted(secret, wrapped) {
        Ok(bytes) => SymmetricKey::parsed(bytes, alg),
        Err(e) => Err(e),
    }
}

/// Generates a fresh symmetric key.
///
/// Fails with `KeyCreationFailed` where the system gives no random
/// bytes; `SymmetricKey::from_random` says what is made of them.
pub fn generate_key() -> (res: Result<SymmetricKey, Error>)
    ensures
        res matches Err(e) ==> e == Error::KeyCreationFailed,
{
    SymmetricKey::from_random(random_bytes(AES_KEY_LENGTH))
}

} // verus!
