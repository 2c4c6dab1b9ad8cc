//! The cryptographic primitives that the library builds on.
//!
//! Each function here calls one primitive of a cryptography crate and states
//! what the library relies on. Verus takes these contracts on trust; the
//! rest of the library is proved from them. A deterministic primitive gets a
//! name, so that two calls on equal arguments are known to agree.

use vstd::prelude::*;

use aes_gcm::aead::{Aead, KeyInit, Payload};
use ed25519_dalek::{Signer, Verifier};
use pqcrypto_traits::sign::{DetachedSignature, PublicKey, SecretKey};
use rand_core::RngCore;
use sha2::Digest;

verus! {

/// Length of an AES-256 key.
pub const AES_KEY_LENGTH: usize = 32;

/// Length of the nonce of AES-GCM.
pub const AES_NONCE_LENGTH: usize = 12;

/// Length of the tag that AES-GCM appends to a ciphertext.
pub const AES_TAG_LENGTH: usize = 16;

/// Length of an X25519 scalar and of an X25519 point.
pub const X25519_LENGTH: usize = 32;

/// Length of an Ed25519 signing key and of an Ed25519 verification key.
pub const ED25519_KEY_LENGTH: usize = 32;

/// Length of an Ed25519 signature.
pub const ED25519_SIGNATURE_LENGTH: usize = 64;

/// Length of a SHA-256 digest.
pub const SHA256_LENGTH: usize = 32;

/// Length of a Dilithium3 public key.
pub const DILITHIUM3_PUBLIC_KEY_LENGTH: usize = 1952;

/// Length of a Dilithium3 secret key.
pub const DILITHIUM3_SECRET_KEY_LENGTH: usize = 4032;

/// Length of a Dilithium3 signature.
pub const DILITHIUM3_SIGNATURE_LENGTH: usize = 3309;

/// The bytes of an optional buffer.
pub open spec fn bytes_of(buffer: Option<Vec<u8>>) -> Option<Seq<u8>> {
    match buffer {
        Some(bytes) => Some(bytes@),
        None => None,
    }
}

/// `OsRng::try_fill_bytes` of `rand_core`: `length` bytes from the
/// operating system's random number generator, or `None` where the system
/// has none to give. Nothing is claimed of the bytes but their number.
#[verifier::external_body]
pub(crate) fn random_bytes(length: usize) -> (res: Option<Vec<u8>>)
    ensures
        res matches Some(bytes) ==> bytes@.len() == length,
{
    let mut bytes = vec![0u8; length];
    match rand_core::OsRng.try_fill_bytes(&mut bytes) {
        Ok(()) => Some(bytes),
        Err(_) => None,
    }
}

/// What AES-256-GCM encryption gives for a key, a nonce, associated data
/// and a plaintext: the ciphertext followed by its tag, or `None` where
/// the cipher refuses the input.
pub uninterp spec fn aes_gcm_sealed(
    key: Seq<u8>,
    nonce: Seq<u8>,
    aad: Seq<u8>,
    plaintext: Seq<u8>,
) -> Option<Seq<u8>>;

/// What AES-256-GCM decryption gives for a key, a nonce, associated data
/// and a ciphertext with its tag: the plaintext, or `None` where the tag
/// does not match.
pub uninterp spec fn aes_gcm_opened(
    key: Seq<u8>,
    nonce: Seq<u8>,
    aad: Seq<u8>,
    ciphertext: Seq<u8>,
) -> Option<Seq<u8>>;

/// `Aes256Gcm::encrypt` of `aes_gcm`. The result is a function of the
/// arguments: the encrypted plaintext, as long as the plaintext, followed
/// by the tag. Decrypting it under the same key, nonce and associated data
/// gives the plaintext back.
#[verifier::external_body]
pub(crate) fn aes_gcm_seal(key: &[u8], nonce: &[u8], aad: &[u8], plaintext: &[u8]) -> (res:
    Option<Vec<u8>>)
    requires
        key@.len() == AES_KEY_LENGTH,
        nonce@.len() == AES_NONCE_LENGTH,
    ensures
        bytes_of(res) == aes_gcm_sealed(key@, nonce@, aad@, plaintext@),
        res matches Some(sealed) ==> sealed@.len() == plaintext@.len() + AES_TAG_LENGTH,
        res matches Some(sealed) ==> aes_gcm_opened(key@, nonce@, aad@, sealed@) == Some(
            plaintext@,
        ),
{
    let cipher = aes_gcm::Aes256Gcm::new(aes_gcm::Key::<aes_gcm::Aes256Gcm>::from_slice(key));
    let payload = Payload { msg: plaintext, aad };
    cipher.encrypt(aes_gcm::Nonce::from_slice(nonce), payload).ok()
}

/// `Aes256Gcm::decrypt` of `aes_gcm`. The result is a function of the
/// arguments.
#[verifier::external_body]
pub(crate) fn aes_gcm_open(key: &[u8], nonce: &[u8], aad: &[u8], ciphertext: &[u8]) -> (res:
    Option<Vec<u8>>)
    requires
        key@.len() == AES_KEY_LENGTH,
        nonce@.len() == AES_NONCE_LENGTH,
    ensures
        bytes_of(res) == aes_gcm_opened(key@, nonce@, aad@, ciphertext@),
{
    let cipher = aes_gcm::Aes256Gcm::new(aes_gcm::Key::<aes_gcm::Aes256Gcm>::from_slice(key));
    let payload = Payload { msg: ciphertext, aad };
    cipher.decrypt(aes_gcm::Nonce::from_slice(nonce), payload).ok()
}

/// What the X25519 function gives for a scalar and the u-coordinate of a
/// point.
pub uninterp spec fn x25519_product(scalar: Seq<u8>, point: Seq<u8>) -> Seq<u8>;

/// The u-coordinate of the base point of X25519: nine, in 32 bytes.
pub open spec fn x25519_basepoint() -> Seq<u8> {
    Seq::new(X25519_LENGTH as nat, |i: int| if i == 0 { 9u8 } else { 0u8 })
}

/// The public key that belongs to the secret key `secret`.
pub open spec fn x25519_public(secret: Seq<u8>) -> Seq<u8> {
    x25519_product(secret, x25519_basepoint())
}

/// `x25519` of `x25519_dalek`. The result is a function of the arguments.
/// Where `point` is the public key of some secret key, the result is also
/// what the owner of that key computes from the public key of `scalar`: both
/// sides of a key agreement arrive at one value.
#[verifier::external_body]
pub(crate) fn x25519(scalar: &[u8; 32], point: &[u8; 32]) -> (res: [u8; 32])
    ensures
        res@ == x25519_product(scalar@, point@),
        forall|other: Seq<u8>|
            other.len() == X25519_LENGTH && point@ == x25519_public(other) ==> res@
                == #[trigger] x25519_product(other, x25519_public(scalar@)),
{
    x25519_dalek::x25519(*scalar, *point)
}

/// What HKDF with SHA-256 and no salt derives from the key material `ikm`
/// for the purpose `info`, `length` bytes long; `None` where `length` is
/// more than HKDF can give.
pub uninterp spec fn hkdf_sha256_derived(ikm: Seq<u8>, info: Seq<u8>, length: nat) -> Option<
    Seq<u8>,
>;

/// `Hkdf::<Sha256>::new` without salt, then `Hkdf::expand`, of `hkdf`. The
/// result is a function of the arguments and has the length asked for.
#[verifier::external_body]
pub(crate) fn hkdf_sha256(ikm: &[u8], info: &[u8], length: usize) -> (res: Option<Vec<u8>>)
    ensures
        bytes_of(res) == hkdf_sha256_derived(ikm@, info@, length as nat),
        res matches Some(okm) ==> okm@.len() == length,
{
    let mut okm = vec![0u8; length];
    match hkdf::Hkdf::<sha2::Sha256>::new(None, ikm).expand(info, &mut okm) {
        Ok(()) => Some(okm),
        Err(_) => None,
    }
}

/// The SHA-256 digest of `data`.
pub uninterp spec fn sha256_digest(data: Seq<u8>) -> Seq<u8>;

/// `Sha256::digest` of `sha2`. The result is a function of the argument and
/// is 32 bytes long.
#[verifier::external_body]
pub(crate) fn sha256(data: &[u8]) -> (res: Vec<u8>)
    ensures
        res@ == sha256_digest(data@),
        res@.len() == SHA256_LENGTH,
{
    sha2::Sha256::digest(data).to_vec()
}

/// What Argon2id with the default parameters derives from a password and a
/// salt, `length` bytes long; `None` where Argon2 refuses the input.
pub uninterp spec fn argon2id_derived(password: Seq<u8>, salt: Seq<u8>, length: nat) -> Option<
    Seq<u8>,
>;

/// `Argon2::hash_password_into` of `argon2`, on `Argon2::default()`. The
/// result is a function of the arguments and has the length asked for.
#[verifier::external_body]
pub(crate) fn argon2id(password: &[u8], salt: &[u8], length: usize) -> (res: Option<Vec<u8>>)
    ensures
        bytes_of(res) == argon2id_derived(password@, salt@, length as nat),
        res matches Some(derived) ==> derived@.len() == length,
{
    let mut derived = vec![0u8; length];
    match argon2::Argon2::default().hash_password_into(password, salt, &mut derived) {
        Ok(()) => Some(derived),
        Err(_) => None,
    }
}

/// The Ed25519 verification key that belongs to the signing key `secret`.
pub uninterp spec fn ed25519_public(secret: Seq<u8>) -> Seq<u8>;

/// `SigningKey::from_bytes`, then `SigningKey::verifying_key`, of
/// `ed25519_dalek`. The result is a function of the argument.
#[verifier::external_body]
pub(crate) fn ed25519_verifying_key(secret: &[u8; 32]) -> (res: [u8; 32])
    ensures
        res@ == ed25519_public(secret@),
{
    ed25519_dalek::SigningKey::from_bytes(secret).verifying_key().to_bytes()
}

/// The Ed25519 signature of `message` under the signing key `secret`.
pub uninterp spec fn ed25519_signature(secret: Seq<u8>, message: Seq<u8>) -> Seq<u8>;

/// Whether the verification key `public` accepts `signature` for
/// `message`; `None` where `public` is no verification key at all.
pub uninterp spec fn ed25519_accepted(public: Seq<u8>, message: Seq<u8>, signature: Seq<u8>)
    -> Option<bool>;

/// `SigningKey::sign` of `ed25519_dalek`. Ed25519 signs without randomness:
/// the result is a function of the arguments. The verification key of
/// `secret` accepts it for `message`.
#[verifier::external_body]
pub(crate) fn ed25519_sign(secret: &[u8; 32], message: &[u8]) -> (res: [u8; 64])
    ensures
        res@ == ed25519_signature(secret@, message@),
        ed25519_accepted(ed25519_public(secret@), message@, res@) == Some(true),
{
    ed25519_dalek::SigningKey::from_bytes(secret).sign(message).to_bytes()
}

/// `VerifyingKey::from_bytes`, then `VerifyingKey::verify`, of
/// `ed25519_dalek`. The result is a function of the arguments. Whether
/// there is a verdict at all is decided by the key alone, before message
/// and signature are looked at.
#[verifier::external_body]
pub(crate) fn ed25519_verify(public: &[u8; 32], message: &[u8], signature: &[u8; 64]) -> (res:
    Option<bool>)
    ensures
        res == ed25519_accepted(public@, message@, signature@),
        forall|other_message: Seq<u8>, other_signature: Seq<u8>|
            other_signature.len() == ED25519_SIGNATURE_LENGTH ==> (res is Some) == (
            #[trigger] ed25519_accepted(public@, other_message, other_signature) is Some),
{
    match ed25519_dalek::VerifyingKey::from_bytes(public) {
        Ok(key) => {
            let signature = ed25519_dalek::Signature::from_bytes(signature);
            Some(key.verify(message, &signature).is_ok())
        },
        Err(_) => None,
    }
}

/// The Ed25519 verification key that OpenSSL derives from the signing key
/// `secret`.
pub uninterp spec fn openssl_ed25519_public(secret: Seq<u8>) -> Seq<u8>;

/// `PKey::private_key_from_raw_bytes`, then `PKey::raw_public_key`, of
/// `openssl`. Whether the installed OpenSSL offers Ed25519 is not for this
/// library to say; where it gives a key, the key is a function of the
/// argument.
#[verifier::external_body]
pub(crate) fn openssl_ed25519_public_key(secret: &[u8]) -> (res: Option<Vec<u8>>)
    ensures
        res matches Some(public) ==> public@ == openssl_ed25519_public(secret@),
{
    match openssl::pkey::PKey::private_key_from_raw_bytes(secret, openssl::pkey::Id::ED25519) {
        Ok(key) => key.raw_public_key().ok(),
        Err(_) => None,
    }
}

/// The Ed25519 signature that OpenSSL makes of `message` under the signing
/// key `secret`.
pub uninterp spec fn openssl_ed25519_signature(secret: Seq<u8>, message: Seq<u8>) -> Seq<u8>;

/// Whether OpenSSL accepts `signature` for `message` under the Ed25519
/// verification key `public`.
pub uninterp spec fn openssl_ed25519_verdict(
    public: Seq<u8>,
    message: Seq<u8>,
    signature: Seq<u8>,
) -> bool;

/// `PKey::private_key_from_raw_bytes`, `Signer::new_without_digest` and
/// `Signer::sign_oneshot_to_vec` of `openssl`. Where OpenSSL signs, the
/// signature is a function of the arguments, and OpenSSL accepts it under
/// the verification key of `secret`.
#[verifier::external_body]
pub(crate) fn openssl_ed25519_sign(secret: &[u8], message: &[u8]) -> (res: Option<Vec<u8>>)
    ensures
        res matches Some(signature) ==> signature@ == openssl_ed25519_signature(
            secret@,
            message@,
        ),
        res matches Some(signature) ==> openssl_ed25519_verdict(
            openssl_ed25519_public(secret@),
            message@,
            signature@,
        ),
{
    let key = openssl::pkey::PKey::private_key_from_raw_bytes(secret, openssl::pkey::Id::ED25519);
    let key = key.ok()?;
    let mut signer = openssl::sign::Signer::new_without_digest(&key).ok()?;
    signer.sign_oneshot_to_vec(message).ok()
}

/// `PKey::public_key_from_raw_bytes`, `Verifier::new_without_digest` and
/// `Verifier::verify_oneshot` of `openssl`. Where OpenSSL gives a verdict,
/// the verdict is a function of the arguments.
#[verifier::external_body]
pub(crate) fn openssl_ed25519_verify(public: &[u8], message: &[u8], signature: &[u8]) -> (res:
    Option<bool>)
    ensures
        res matches Some(accepted) ==> accepted == openssl_ed25519_verdict(
            public@,
            message@,
            signature@,
        ),
{
    let key = openssl::pkey::PKey::public_key_from_raw_bytes(public, openssl::pkey::Id::ED25519);
    let key = key.ok()?;
    let mut verifier = openssl::sign::Verifier::new_without_digest(&key).ok()?;
    verifier.verify_oneshot(signature, message).ok()
}

/// The Dilithium3 signature of `message` under the secret key `secret`;
/// `None` where `secret` has not the length of a secret key.
pub uninterp spec fn dilithium3_signature(secret: Seq<u8>, message: Seq<u8>) -> Option<Seq<u8>>;

/// Whether the Dilithium3 public key `public` accepts `signature` for
/// `message`; `None` where `public` has not the length of a public key
/// or `signature` is longer than a signature.
pub uninterp spec fn dilithium3_accepted(
    public: Seq<u8>,
    message: Seq<u8>,
    signature: Seq<u8>,
) -> Option<bool>;

/// Whether the secret key `secret` signs `message` and the public key
/// `public` accepts the signature.
pub open spec fn dilithium3_signs_for(public: Seq<u8>, secret: Seq<u8>, message: Seq<u8>) -> bool {
    match dilithium3_signature(secret, message) {
        Some(signature) => dilithium3_accepted(public, message, signature) == Some(true),
        None => false,
    }
}

/// `dilithium3::keypair` of `pqcrypto_dilithium`: a fresh public key and
/// its secret key. Nothing is claimed of the bytes but their number; the
/// public key accepts every signature that the secret key makes.
///
/// The call draws from the system's random generator by itself and has
/// no way to report that it gave nothing: where the generator fails
/// inside key generation, the process aborts. No condition on the
/// arguments can leave that out, since there are none. `generate_key_pair`
/// of the hybrid keys therefore draws from `random_bytes` first and
/// returns `KeyCreationFailed` where that already fails, so that this call
/// is made only after the generator has answered once.
#[verifier::external_body]
pub(crate) fn dilithium3_keypair() -> (res: (Vec<u8>, Vec<u8>))
    ensures
        res.0@.len() == DILITHIUM3_PUBLIC_KEY_LENGTH,
        res.1@.len() == DILITHIUM3_SECRET_KEY_LENGTH,
        forall|message: Seq<u8>| #[trigger] dilithium3_signs_for(res.0@, res.1@, message),
{
    let (public, secret) = pqcrypto_dilithium::dilithium3::keypair();
    (public.as_bytes().to_vec(), secret.as_bytes().to_vec())
}

/// `SecretKey::from_bytes`, then `dilithium3::detached_sign`, of
/// `pqcrypto_dilithium`. Dilithium3 signs without randomness here: the
/// result is a function of the arguments. A signature has a fixed length.
#[verifier::external_body]
pub(crate) fn dilithium3_sign(secret: &[u8], message: &[u8]) -> (res: Option<Vec<u8>>)
    ensures
        bytes_of(res) == dilithium3_signature(secret@, message@),
        res matches Some(signature) ==> signature@.len() == DILITHIUM3_SIGNATURE_LENGTH,
{
    match pqcrypto_dilithium::dilithium3::SecretKey::from_bytes(secret) {
        Ok(key) => {
            let signature = pqcrypto_dilithium::dilithium3::detached_sign(message, &key);
            Some(signature.as_bytes().to_vec())
        },
        Err(_) => None,
    }
}

/// `PublicKey::from_bytes`, `DetachedSignature::from_bytes` and
/// `dilithium3::verify_detached_signature` of `pqcrypto_dilithium`. The
/// result is a function of the arguments.
#[verifier::external_body]
pub(crate) fn dilithium3_verify(public: &[u8], message: &[u8], signature: &[u8]) -> (res: Option<
    bool,
>)
    ensures
        res == dilithium3_accepted(public@, message@, signature@),
{
    let key = pqcrypto_dilithium::dilithium3::PublicKey::from_bytes(public).ok()?;
    let signature = pqcrypto_dilithium::dilithium3::DetachedSignature::from_bytes(signature).ok()?;
    let verdict =
        pqcrypto_dilithium::dilithium3::verify_detached_signature(&signature, message, &key);
    Some(verdict.is_ok())
}

} // verus!
