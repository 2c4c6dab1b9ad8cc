//! Signing keys: Ed25519.
//!
//! Signed data is the signature, 64 bytes, followed by the data. A verifier
//! splits the signature off by its fixed length.

use vstd::prelude::*;
use vstd::slice::*;
use vstd::string::*;

use crate::alg::sym::{result_bytes, sym_decrypted, SymmetricKey, SYM_OVERHEAD};
use crate::bytes::{joined, same_text, to_array};
use crate::error::Error;
use crate::primitives::{
    bytes_of, ed25519_accepted, ed25519_public, ed25519_sign, ed25519_signature, ed25519_verify,
    ed25519_verifying_key, random_bytes, ED25519_KEY_LENGTH, ED25519_SIGNATURE_LENGTH,
};

verus! {

/// The algorithm tag of Ed25519.
pub const ED25519_OUTPUT: &'static str = "ED25519";

/// Length of a signature.
pub const SIG_LENGTH: usize = ED25519_SIGNATURE_LENGTH;

/// A key that signs, tagged with its algorithm.
#[derive(Debug, Clone, Copy, PartialEq, Eq)]
pub enum SignKey {
    Ed25519([u8; 32]),
}

/// A key that verifies signatures, tagged with its algorithm.
#[derive(Debug, Clone, Copy, PartialEq, Eq)]
pub enum VerifyKey {
    Ed25519([u8; 32]),
}

/// Signed data, split into the signature of `length` bytes and the data.
/// Data that does not hold more than a signature is refused.
pub open spec fn signed_parts(data_with_sig: Seq<u8>, length: nat) -> Result<
    (Seq<u8>, Seq<u8>),
    Error,
> {
    if data_with_sig.len() <= length {
        Err(Error::DataToSignTooShort)
    } else {
        Ok(
            (
                data_with_sig.subrange(0, length as int),
                data_with_sig.subrange(length as int, data_with_sig.len() as int),
            ),
        )
    }
}

/// What `verify_only` gives for a verification key, a signature and data.
pub open spec fn signature_checked(key: Seq<u8>, signature: Seq<u8>, data: Seq<u8>) -> Result<
    bool,
    Error,
> {
    if signature.len() != SIG_LENGTH {
        Err(Error::InitVerifyFailed)
    } else {
        match ed25519_accepted(key, data, signature) {
            Some(accepted) => Ok(accepted),
            None => Err(Error::InitVerifyFailed),
        }
    }
}

/// What `verify` gives for a verification key and signed data: the data
/// and whether the key accepts the signature for it.
pub open spec fn signed_verified(key: Seq<u8>, data_with_sig: Seq<u8>) -> Result<
    (Seq<u8>, bool),
    Error,
> {
    match signed_parts(data_with_sig, SIG_LENGTH as nat) {
        Err(e) => Err(e),
        Ok((signature, data)) => match signature_checked(key, signature, data) {
            Ok(accepted) => Ok((data, accepted)),
            Err(e) => Err(e),
        },
    }
}

/// Whether `key` is a verification key at all: whether it gives a
/// verdict on signatures, one way or the other.
pub open spec fn is_verify_key(key: Seq<u8>) -> bool {
    forall|message: Seq<u8>, signature: Seq<u8>|
        signature.len() == SIG_LENGTH ==> #[trigger] ed25519_accepted(key, message, signature)
            is Some
}

/// Whether `verify` is the verification key of the signing key `sign`.
pub open spec fn is_sign_key_pair(sign: Seq<u8>, verify: Seq<u8>) -> bool {
    sign.len() == ED25519_KEY_LENGTH && verify == ed25519_public(sign)
}

/// The key pair that a generator makes of what the random number generator
/// gave: signing key and verification key.
pub open spec fn sign_keypair_of_random(random: Option<Seq<u8>>) -> Result<
    (Seq<u8>, Seq<u8>),
    Error,
> {
    match random {
        Some(bytes) if bytes.len() == ED25519_KEY_LENGTH => Ok((bytes, ed25519_public(bytes))),
        _ => Err(Error::KeyCreationFailed),
    }
}

/// The raw key material of a result that holds a key pair.
pub open spec fn result_sign_keypair_bytes(res: Result<(SignKey, VerifyKey), Error>) -> Result<
    (Seq<u8>, Seq<u8>),
    Error,
> {
    match res {
        Ok((sign, verify)) => Ok((sign.bytes(), verify.bytes())),
        Err(e) => Err(e),
    }
}

/// The parts of a result that holds split signed data.
pub open spec fn result_parts(res: Result<(&[u8], &[u8]), Error>) -> Result<
    (Seq<u8>, Seq<u8>),
    Error,
> {
    match res {
        Ok((signature, data)) => Ok((signature@, data@)),
        Err(e) => Err(e),
    }
}

/// The data and the verdict of a result of a verification.
pub open spec fn result_verified(res: Result<(&[u8], bool), Error>) -> Result<
    (Seq<u8>, bool),
    Error,
> {
    match res {
        Ok((data, accepted)) => Ok((data@, accepted)),
        Err(e) => Err(e),
    }
}

/// Splits signed data into the signature of `length` bytes and the data.
///
/// Fails with `DataToSignTooShort` where `data_with_sig` does not hold
/// more than a signature.
pub fn split_sig_and_data(data_with_sig: &[u8], length: usize) -> (res: Result<
    (&[u8], &[u8]),
    Error,
>)
    ensures
        result_parts(res) == signed_parts(data_with_sig@, length as nat),
{
    if data_with_sig.len() <= length {
        return Err(Error::DataToSignTooShort);
    }
    let signature = slice_subrange(data_with_sig, 0, length);
    let data = slice_subrange(data_with_sig, length, data_with_sig.len());
    Ok((signature, data))
}

impl SignKey {
    /// The raw key material.
    pub open spec fn bytes(self) -> Seq<u8> {
        match self {
            SignKey::Ed25519(key) => key@,
        }
    }

    /// The algorithm tag of this key.
    pub open spec fn alg(self) -> Seq<char> {
        match self {
            SignKey::Ed25519(_) => ED25519_OUTPUT@,
        }
    }

    /// What `from_bytes` gives.
    pub open spec fn parsed(bytes: Seq<u8>, alg: Seq<char>) -> Result<Seq<u8>, Error> {
        if alg != ED25519_OUTPUT@ {
            Err(Error::AlgNotFound)
        } else if bytes.len() != ED25519_KEY_LENGTH {
            Err(Error::SignKeyCreateFailed)
        } else {
            Ok(bytes)
        }
    }

    /// The raw key material of a result that holds a key.
    pub open spec fn result_key_bytes(res: Result<SignKey, Error>) -> Result<Seq<u8>, Error> {
        match res {
            Ok(key) => Ok(key.bytes()),
            Err(e) => Err(e),
        }
    }

    /// The algorithm tag of this key.
    pub fn get_alg_str(&self) -> (alg: &'static str)
        ensures
            alg@ == self.alg(),
    {
        match self {
            SignKey::Ed25519(_) => ED25519_OUTPUT,
        }
    }

    /// The raw key material.
    pub fn as_bytes(&self) -> (bytes: &[u8])
        ensures
            bytes@ == self.bytes(),
            bytes@.len() == ED25519_KEY_LENGTH,
    {
        match self {
            SignKey::Ed25519(key) => key.as_slice(),
        }
    }

    /// The key with the raw material `bytes` for the algorithm `alg_str`.
    ///
    /// Fails with `AlgNotFound` on an unknown algorithm tag and with
    /// `SignKeyCreateFailed` where `bytes` has not the length of a key.
    pub fn from_bytes(bytes: &[u8], alg_str: &str) -> (res: Result<SignKey, Error>)
        ensures
            Self::result_key_bytes(res) == Self::parsed(bytes@, alg_str@),
    {
        if !same_text(alg_str, ED25519_OUTPUT) {
            return Err(Error::AlgNotFound);
        }
        match to_array::<32>(bytes) {
            Some(key) => Ok(SignKey::Ed25519(key)),
            None => Err(Error::SignKeyCreateFailed),
        }
    }

    /// The verification key that belongs to this key.
    pub fn verify_key(&self) -> (verify: VerifyKey)
        ensures
            is_sign_key_pair(self.bytes(), verify.bytes()),
    {
        match self {
            SignKey::Ed25519(secret) => VerifyKey::Ed25519(ed25519_verifying_key(secret)),
        }
    }

    /// The signature of `data` under this key. The verification key of
    /// this key accepts it for `data`.
    pub fn sign_only(&self, data: &[u8]) -> (signature: [u8; 64])
        ensures
            signature@ == ed25519_signature(self.bytes(), data@),
            signature_checked(ed25519_public(self.bytes()), signature@, data@) == Ok::<
                bool,
                Error,
            >(true),
    {
        match self {
            SignKey::Ed25519(secret) => ed25519_sign(secret, data),
        }
    }

    /// Signs `data`: the result is the signature followed by `data`.
    ///
    /// Signing does not fail. Where `data` is not empty, `verify` with the
    /// verification key of this key gives `data` back and accepts.
    pub fn sign(&self, data: &[u8]) -> (res: Result<Vec<u8>, Error>)
        ensures
            result_bytes(res) == Ok::<Seq<u8>, Error>(
                ed25519_signature(self.bytes(), data@) + data@,
            ),
            res matches Ok(signed) ==> data@.len() > 0 ==> signed_verified(
                ed25519_public(self.bytes()),
                signed@,
            ) == Ok::<(Seq<u8>, bool), Error>((data@, true)),
    {
        let signature = self.sign_only(data);
        let signed = joined(signature.as_slice(), data);
        proof {
            let n = SIG_LENGTH as int;
            assert(signed@.subrange(0, n) =~= signature@);
            assert(signed@.subrange(n, signed@.len() as int) =~= data@);
        }
        Ok(signed)
    }

    /// Wraps this key under the symmetric key `master_key`.
    ///
    /// Unwrapping the result with `decrypt_by_master_key` gives this key
    /// back.
    pub fn encrypt_by_master_key(&self, master_key: &SymmetricKey) -> (res: Result<Vec<u8>, Error>)
        ensures
            res matches Ok(wrapped) ==> wrapped@.len() == ED25519_KEY_LENGTH + SYM_OVERHEAD,
            res matches Ok(wrapped) ==> sign_key_unwrapped(
                master_key.bytes(),
                wrapped@,
                self.alg(),
            ) == Ok::<Seq<u8>, Error>(self.bytes()),
            res matches Err(e) ==> e == Error::EncryptionFailedRng || e == Error::EncryptionFailed,
    {
        master_key.encrypt(self.as_bytes())
    }

    /// Unwraps a signing key of the algorithm `alg_str` that was wrapped
    /// under the symmetric key `master_key`.
    ///
    /// Fails as symmetric decryption does, and as `from_bytes` does on what
    /// was decrypted.
    pub fn decrypt_by_master_key(master_key: &SymmetricKey, encrypted_key: &[u8], alg_str: &str)
        -> (res: Result<SignKey, Error>)
        ensures
            Self::result_key_bytes(res) == sign_key_unwrapped(
                master_key.bytes(),
                encrypted_key@,
                alg_str@,
            ),
    {
        match master_key.decrypt(encrypted_key) {
            Ok(bytes) => Self::from_bytes(bytes.as_slice(), alg_str),
            Err(e) => Err(e),
        }
    }
}

/// What unwrapping a signing key under a symmetric key gives: the wrapped
/// bytes are decrypted and read as a key of the algorithm `alg`.
pub open spec fn sign_key_unwrapped(master_key: Seq<u8>, wrapped: Seq<u8>, alg: Seq<char>)
    -> Result<Seq<u8>, Error> {
    match sym_decrypted(master_key, Seq::<u8>::empty(), wrapped) {
        Ok(bytes) => SignKey::parsed(bytes, alg),
        Err(e) => Err(e),
    }
}

impl VerifyKey {
    /// The raw key material.
    pub open spec fn bytes(self) -> Seq<u8> {
        match self {
            VerifyKey::Ed25519(key) => key@,
        }
    }

    /// The algorithm tag of this key.
    pub open spec fn alg(self) -> Seq<char> {
        match self {
            VerifyKey::Ed25519(_) => ED25519_OUTPUT@,
        }
    }

    /// What `from_bytes` gives.
    pub open spec fn parsed(bytes: Seq<u8>, alg: Seq<char>) -> Result<Seq<u8>, Error> {
        if alg != ED25519_OUTPUT@ {
            Err(Error::AlgNotFound)
        } else if bytes.len() != ED25519_KEY_LENGTH {
            Err(Error::InitVerifyFailed)
        } else {
            Ok(bytes)
        }
    }

    /// The raw key material of a result that holds a key.
    pub open spec fn result_key_bytes(res: Result<VerifyKey, Error>) -> Result<Seq<u8>, Error> {
        match res {
            Ok(key) => Ok(key.bytes()),
            Err(e) => Err(e),
        }
    }

    /// The algorithm tag of this key.
    pub fn get_alg_str(&self) -> (alg: &'static str)
        ensures
            alg@ == self.alg(),
    {
        match self {
            VerifyKey::Ed25519(_) => ED25519_OUTPUT,
        }
    }

    /// The raw key material.
    pub fn as_bytes(&self) -> (bytes: &[u8])
        ensures
            bytes@ == self.bytes(),
            bytes@.len() == ED25519_KEY_LENGTH,
    {
        match self {
            VerifyKey::Ed25519(key) => key.as_slice(),
        }
    }

    /// The key with the raw material `bytes` for the algorithm `alg_str`.
    ///
    /// Fails with `AlgNotFound` on an unknown algorithm tag and with
    /// `InitVerifyFailed` where `bytes` has not the length of a key.
    pub fn from_bytes(bytes: &[u8], alg_str: &str) -> (res: Result<VerifyKey, Error>)
        ensures
            Self::result_key_bytes(res) == Self::parsed(bytes@, alg_str@),
    {
        if !same_text(alg_str, ED25519_OUTPUT) {
            return Err(Error::AlgNotFound);
        }
        match to_array::<32>(bytes) {
            Some(key) => Ok(VerifyKey::Ed25519(key)),
            None => Err(Error::InitVerifyFailed),
        }
    }

    /// Whether this key accepts `signature` for `data`.
    ///
    /// A signature that this key does not accept is an answer, `false`, and
    /// no failure. Fails with `InitVerifyFailed` where `signature` has not
    /// the length of a signature or this key is no verification key at all.
    pub fn verify_only(&self, signature: &[u8], data: &[u8]) -> (res: Result<bool, Error>)
        ensures
            res == signature_checked(self.bytes(), signature@, data@),
            signature@.len() == SIG_LENGTH ==> (res is Ok <==> is_verify_key(self.bytes())),
    {
        let signature = match to_array::<64>(signature) {
            Some(signature) => signature,
            None => { return Err(Error::InitVerifyFailed); },
        };
        let accepted = match self {
            VerifyKey::Ed25519(key) => ed25519_verify(key, data, &signature),
        };
        match accepted {
            Some(accepted) => Ok(accepted),
            None => Err(Error::InitVerifyFailed),
        }
    }

    /// Splits signed data and says whether this key accepts the signature
    /// for the data.
    ///
    /// A signature that this key does not accept is an answer, `false`, and
    /// no failure: a key that answers for some signed data answers for all
    /// signed data, whatever was changed in it. Fails with
    /// `DataToSignTooShort` exactly where `data_with_sig` does not hold more
    /// than a signature, and with `InitVerifyFailed` where this key is no
    /// verification key at all.
    pub fn verify<'a>(&self, data_with_sig: &'a [u8]) -> (res: Result<(&'a [u8], bool), Error>)
        ensures
            result_verified(res) == signed_verified(self.bytes(), data_with_sig@),
            data_with_sig@.len() <= SIG_LENGTH <==> res == Err::<(&[u8], bool), Error>(
                Error::DataToSignTooShort,
            ),
            data_with_sig@.len() > SIG_LENGTH ==> (res is Ok <==> is_verify_key(self.bytes())),
    {
        let (signature, data) = match split_sig_and_data(data_with_sig, SIG_LENGTH) {
            Ok(parts) => parts,
            Err(e) => { return Err(e); },
        };
        match self.verify_only(signature, data) {
            Ok(accepted) => Ok((data, accepted)),
            Err(e) => Err(e),
        }
    }
}

/// The key pair that a generator makes of what the random number generator
/// gave: the bytes are the signing key, where there are as many as a key
/// needs.
pub fn sign_keypair_from_random(random: Option<Vec<u8>>) -> (res: Result<
    (SignKey, VerifyKey),
    Error,
>)
    ensures
        result_sign_keypair_bytes(res) == sign_keypair_of_random(bytes_of(random)),
{
    match random {
        Some(bytes) => match to_array::<32>(bytes.as_slice()) {
            Some(key) => {
                let sign = SignKey::Ed25519(key);
                let verify = sign.verify_key();
                Ok((sign, verify))
            },
            None => Err(Error::KeyCreationFailed),
        },
        None => Err(Error::KeyCreationFailed),
    }
}

/// Generates a fresh key pair for signing.
///
/// Fails with `KeyCreationFailed` where the system gives no random
/// bytes; `sign_keypair_from_random` says what is made of them.
pub fn generate_key_pair() -> (res: Result<(SignKey, VerifyKey), Error>)
    ensures
        res matches Ok((sign, verify)) ==> is_sign_key_pair(sign.bytes(), verify.bytes()),
        res matches Err(e) ==> e == Error::KeyCreationFailed,
{
    sign_keypair_from_random(random_bytes(ED25519_KEY_LENGTH))
}

} // verus!
