//! Encryption of data for the holders of a key, with an optional signature.
//!
//! Encrypted data comes with a head that names the key it was encrypted
//! for and, where it is signed, the signing key and its algorithm. The
//! signature covers the ciphertext and stands in front of it. The raw
//! functions hand the head out beside the ciphertext. The others put the
//! head in front of the ciphertext, as JSON text that a zero byte ends, so
//! that one buffer holds all that is needed to decrypt.

use vstd::prelude::*;
use vstd::slice::*;
use vstd::string::*;

use crate::alg::asym::{ecies_decrypted, ecies_encrypted, is_key_pair};
use crate::alg::sign::{
    signed_parts, signed_verified, split_sig_and_data, ED25519_OUTPUT, SIG_LENGTH,
};
use crate::alg::sym::{sym_decrypted, sym_encrypted};
use crate::bytes::{same_text, to_array};
use crate::encoding::{
    base64_bytes, base64_decode, base64_encode, base64_text, json_lookup, json_quote,
    json_quoted, json_value_at, JsonNode, JsonNodeView,
};
use crate::error::{Error, SdkError, SdkErrorView};
use crate::primitives::{
    ed25519_public, ed25519_signature, random_bytes, AES_NONCE_LENGTH, X25519_LENGTH,
};
use crate::util::{
    import_public_key_from_user_data, import_verify_key_from_pem_with_alg, verify_key_from_pem,
    KeyView, PrivateKeyFormatInt, SignKeyFormatInt, SymKeyFormatInt, UserPublicKeyData,
    UserVerifyKeyData,
};

verus! {

/// The part of a head that names the signing key and its algorithm.
#[derive(Debug, Clone, PartialEq, Eq)]
pub struct SignHead {
    pub id: String,
    pub alg: String,
}

/// The head of encrypted data: the identifier of the key that the data
/// was encrypted for and, where the data is signed, the signing key.
#[derive(Debug, Clone, PartialEq, Eq)]
pub struct EncryptedHead {
    pub id: String,
    pub sign: Option<SignHead>,
}

/// What a `SignHead` holds.
pub struct SignHeadView {
    pub id: Seq<char>,
    pub alg: Seq<char>,
}

/// What an `EncryptedHead` holds.
pub struct EncryptedHeadView {
    pub id: Seq<char>,
    pub sign: Option<SignHeadView>,
}

impl View for SignHead {
    type V = SignHeadView;

    open spec fn view(&self) -> SignHeadView {
        SignHeadView { id: self.id@, alg: self.alg@ }
    }
}

impl View for EncryptedHead {
    type V = EncryptedHeadView;

    open spec fn view(&self) -> EncryptedHeadView {
        EncryptedHeadView {
            id: self.id@,
            sign: match self.sign {
                Some(sign) => Some(sign@),
                None => None,
            },
        }
    }
}

/// What a receiver knows of the sender's verification key: its identifier
/// and, where it could be read, its raw material.
pub struct VerifierView {
    pub id: Seq<char>,
    pub key: Result<Seq<u8>, Error>,
}

/// What a receiver knows from the verification key that it was given.
pub open spec fn verifier_of(verify_key: Option<&UserVerifyKeyData>) -> Option<VerifierView> {
    match verify_key {
        Some(data) => Some(
            VerifierView {
                id: data.verify_key_id@,
                key: verify_key_from_pem(data.verify_key_pem@, data.verify_key_alg@),
            },
        ),
        None => None,
    }
}

/// What a sender signs with: the signing key that it was given.
pub open spec fn signer_of(sign_key: Option<&SignKeyFormatInt>) -> Option<KeyView> {
    match sign_key {
        Some(key) => Some(key@),
        None => None,
    }
}

/// Whether a receiver with `verifier` can read what a sender with
/// `signer` signed: always where one of the two is absent, and else
/// where the verifier holds the verification key of the signer under the
/// signer's identifier.
pub open spec fn verifier_fits(verifier: Option<VerifierView>, signer: Option<KeyView>) -> bool {
    match (signer, verifier) {
        (Some(s), Some(v)) => v.id == s.id && v.key == Ok::<Seq<u8>, Error>(
            ed25519_public(s.bytes),
        ),
        _ => true,
    }
}

/// The head that a sender writes for the key `key_id`.
pub open spec fn head_for(key_id: Seq<char>, signer: Option<KeyView>) -> EncryptedHeadView {
    EncryptedHeadView {
        id: key_id,
        sign: match signer {
            Some(s) => Some(SignHeadView { id: s.id, alg: s.alg }),
            None => None,
        },
    }
}

/// A failure of the cryptographic core, seen from this layer.
pub open spec fn lifted(res: Result<Seq<u8>, Error>) -> Result<Seq<u8>, SdkError> {
    match res {
        Ok(bytes) => Ok(bytes),
        Err(e) => Err(SdkError::Base(e)),
    }
}

/// The bytes of a result that holds a buffer.
pub open spec fn sdk_bytes(res: Result<Vec<u8>, SdkError>) -> Result<Seq<u8>, SdkError> {
    match res {
        Ok(bytes) => Ok(bytes@),
        Err(e) => Err(e),
    }
}

/// The bytes of a result that holds a borrowed buffer.
pub open spec fn sdk_slice(res: Result<&[u8], SdkError>) -> Result<Seq<u8>, SdkError> {
    match res {
        Ok(bytes) => Ok(bytes@),
        Err(e) => Err(e),
    }
}

/// The length of a signature of the algorithm `alg`.
pub open spec fn signature_length(alg: Seq<char>) -> Result<nat, Error> {
    if alg == ED25519_OUTPUT@ {
        Ok(SIG_LENGTH as nat)
    } else {
        Err(Error::AlgNotFound)
    }
}

/// What is left of `data` for decryption once the signature that the head
/// announces is dealt with.
///
/// Unsigned data is left as it is. Of signed data a receiver without a
/// verification key only splits the signature off. A receiver with one
/// checks that the head names its key and that the key accepts the
/// signature.
pub open spec fn signature_removed(
    data: Seq<u8>,
    head: EncryptedHeadView,
    verifier: Option<VerifierView>,
) -> Result<Seq<u8>, SdkError> {
    match head.sign {
        None => Ok(data),
        Some(sign) => match verifier {
            None => match signature_length(sign.alg) {
                Err(e) => Err(SdkError::Base(e)),
                Ok(length) => match signed_parts(data, length) {
                    Ok((_, rest)) => Ok(rest),
                    Err(e) => Err(SdkError::Base(e)),
                },
            },
            Some(v) => if v.id != sign.id {
                Err(SdkError::SigFoundNotKey)
            } else {
                match v.key {
                    Err(e) => Err(SdkError::Base(e)),
                    Ok(key) => match signed_verified(key, data) {
                        Err(e) => Err(SdkError::Base(e)),
                        Ok((rest, accepted)) => if accepted {
                            Ok(rest)
                        } else {
                            Err(SdkError::VerifyFailed)
                        },
                    },
                }
            },
        },
    }
}

/// What `decrypt_raw_symmetric_with_aad` gives.
pub open spec fn raw_sym_decrypted(
    key: Seq<u8>,
    aad: Seq<u8>,
    encrypted: Seq<u8>,
    head: EncryptedHeadView,
    verifier: Option<VerifierView>,
) -> Result<Seq<u8>, SdkError> {
    match signature_removed(encrypted, head, verifier) {
        Ok(ciphertext) => lifted(sym_decrypted(key, aad, ciphertext)),
        Err(e) => Err(e),
    }
}

/// What `decrypt_raw_asymmetric` gives.
pub open spec fn raw_asym_decrypted(
    secret: Seq<u8>,
    encrypted: Seq<u8>,
    head: EncryptedHeadView,
    verifier: Option<VerifierView>,
) -> Result<Seq<u8>, SdkError> {
    match signature_removed(encrypted, head, verifier) {
        Ok(ciphertext) => lifted(ecies_decrypted(secret, ciphertext)),
        Err(e) => Err(e),
    }
}

/// The ciphertext `encrypted` as it leaves a sender with `signer`:
/// behind the signer's signature of it, where there is a signer.
pub open spec fn signed_by(encrypted: Seq<u8>, signer: Option<KeyView>) -> Seq<u8> {
    match signer {
        Some(s) => ed25519_signature(s.bytes, encrypted) + encrypted,
        None => encrypted,
    }
}

/// Puts the signature of `sign_key`, where there is one, in front of the
/// ciphertext `encrypted` and writes the head for the key `key_id`.
///
/// This does not fail. Of a ciphertext that is not empty, a receiver
/// whose verification key fits the signing key, or who has none, gets
/// `encrypted` back from what the head announces.
pub fn finish_raw_encrypt(key_id: &str, encrypted: Vec<u8>, sign_key: Option<&SignKeyFormatInt>)
    -> (res: Result<(EncryptedHead, Vec<u8>), SdkError>)
    ensures
        res matches Ok((head, data)) && head@ == head_for(key_id@, signer_of(sign_key)) && data@
            == signed_by(encrypted@, signer_of(sign_key)) && (encrypted@.len() > 0 ==> forall|
            verifier: Option<VerifierView>,
        |
            verifier_fits(verifier, signer_of(sign_key)) ==> #[trigger] signature_removed(
                data@,
                head@,
                verifier,
            ) == Ok::<Seq<u8>, SdkError>(encrypted@)),
{
    match sign_key {
        None => Ok((EncryptedHead { id: String::from_str(key_id), sign: None }, encrypted)),
        Some(key) => {
            let signed = match key.key.sign(encrypted.as_slice()) {
                Ok(signed) => signed,
                Err(e) => { return Err(SdkError::Base(e)); },
            };
            let sign = SignHead {
                id: key.key_id.clone(),
                alg: String::from_str(key.key.get_alg_str()),
            };
            Ok((EncryptedHead { id: String::from_str(key_id), sign: Some(sign) }, signed))
        },
    }
}

/// What is left of `encrypted_data` for decryption once the signature
/// that the head announces is dealt with.
///
/// Fails with `SigFoundNotKey` where the head names another key than
/// `verify_key`, with `VerifyFailed` where `verify_key` does not accept the
/// signature, and as reading the key and splitting the data do.
pub fn prepare_decrypt<'a>(
    encrypted_data: &'a [u8],
    head: &EncryptedHead,
    verify_key: Option<&UserVerifyKeyData>,
) -> (res: Result<&'a [u8], SdkError>)
    ensures
        sdk_slice(res) == signature_removed(encrypted_data@, head@, verifier_of(verify_key)),
{
    let sign = match &head.sign {
        None => { return Ok(encrypted_data); },
        Some(sign) => sign,
    };
    match verify_key {
        None => {
            if !same_text(sign.alg.as_str(), ED25519_OUTPUT) {
                return Err(SdkError::Base(Error::AlgNotFound));
            }
            match split_sig_and_data(encrypted_data, SIG_LENGTH) {
                Ok((_, rest)) => Ok(rest),
                Err(e) => Err(SdkError::Base(e)),
            }
        },
        Some(data) => {
            if !same_text(data.verify_key_id.as_str(), sign.id.as_str()) {
                return Err(SdkError::SigFoundNotKey);
            }
            let key = match import_verify_key_from_pem_with_alg(
                data.verify_key_pem.as_str(),
                data.verify_key_alg.as_str(),
            ) {
                Ok(key) => key,
                Err(e) => { return Err(SdkError::Base(e)); },
            };
            match key.verify(encrypted_data) {
                Err(e) => Err(SdkError::Base(e)),
                Ok((rest, accepted)) => if accepted {
                    Ok(rest)
                } else {
                    Err(SdkError::VerifyFailed)
                },
            }
        },
    }
}

/// Number of random bytes that encrypting for a public key takes: a
/// secret key for the one message, then a nonce.
pub const ASYM_ENTROPY_LENGTH: usize = 44;

/// What `encrypt_raw_symmetric_with_nonce` gives: the head for the key
/// and the signer, and the ciphertext behind the signer's signature.
pub open spec fn raw_sym_encrypted(
    key: KeyView,
    nonce: Seq<u8>,
    aad: Seq<u8>,
    data: Seq<u8>,
    signer: Option<KeyView>,
) -> Result<(EncryptedHeadView, Seq<u8>), SdkError> {
    match sym_encrypted(key.bytes, nonce, aad, data) {
        Ok(ciphertext) => Ok((head_for(key.id, signer), signed_by(ciphertext, signer))),
        Err(e) => Err(SdkError::Base(e)),
    }
}

/// What `encrypt_raw_asymmetric_with_entropy` gives: the head for the
/// public key and the signer, and the ciphertext behind the signer's
/// signature.
pub open spec fn raw_asym_encrypted(
    reply_public_key: Result<KeyView, Error>,
    entropy: Seq<u8>,
    data: Seq<u8>,
    signer: Option<KeyView>,
) -> Result<(EncryptedHeadView, Seq<u8>), SdkError> {
    match reply_public_key {
        Err(e) => Err(SdkError::Base(e)),
        Ok(public) => if entropy.len() != ASYM_ENTROPY_LENGTH {
            Err(SdkError::Base(Error::EncryptionFailedRng))
        } else {
            match ecies_encrypted(
                public.bytes,
                entropy.subrange(0, X25519_LENGTH as int),
                entropy.subrange(X25519_LENGTH as int, ASYM_ENTROPY_LENGTH as int),
                data,
            ) {
                Ok(ciphertext) => Ok((head_for(public.id, signer), signed_by(ciphertext, signer))),
                Err(e) => Err(SdkError::Base(e)),
            }
        },
    }
}

/// What a result that holds a head and a buffer holds.
pub open spec fn result_raw(res: Result<(EncryptedHead, Vec<u8>), SdkError>) -> Result<
    (EncryptedHeadView, Seq<u8>),
    SdkError,
> {
    match res {
        Ok((head, encrypted)) => Ok((head@, encrypted@)),
        Err(e) => Err(e),
    }
}

/// Whether every receiver whose verification key fits `signer`, or who
/// has none, decrypts `encrypted` with its head under the symmetric key
/// `key` and the associated data `aad` to `data`.
pub open spec fn opens_sym(
    key: Seq<u8>,
    aad: Seq<u8>,
    encrypted: Seq<u8>,
    head: EncryptedHeadView,
    data: Seq<u8>,
    signer: Option<KeyView>,
) -> bool {
    forall|verifier: Option<VerifierView>|
        verifier_fits(verifier, signer) ==> #[trigger] raw_sym_decrypted(
            key,
            aad,
            encrypted,
            head,
            verifier,
        ) == Ok::<Seq<u8>, SdkError>(data)
}

/// Whether every receiver that holds a private key of the public key
/// `public`, and whose verification key fits `signer` or who has none,
/// decrypts `encrypted` with its head to `data`.
pub open spec fn opens_asym(
    public: Seq<u8>,
    encrypted: Seq<u8>,
    head: EncryptedHeadView,
    data: Seq<u8>,
    signer: Option<KeyView>,
) -> bool {
    forall|secret: Seq<u8>, verifier: Option<VerifierView>|
        is_key_pair(secret, public) && verifier_fits(verifier, signer)
            ==> #[trigger] raw_asym_decrypted(secret, encrypted, head, verifier) == Ok::<
            Seq<u8>,
            SdkError,
        >(data)
}

/// Encrypts `data` under `key` with the nonce `nonce`, binding the
/// associated data `aad`, and signs the ciphertext where `sign_key` is
/// given.
///
/// The result is a function of the arguments. A nonce must never be used
/// twice with one key: the functions without a nonce draw a fresh one on
/// each call. Fails with `EncryptionFailed` where the nonce has not twelve
/// bytes or the cipher refuses the input. Decrypting the result under
/// `key` with `aad` gives `data` back, for every receiver whose
/// verification key fits `sign_key` or who has none.
pub fn encrypt_raw_symmetric_with_nonce(
    key: &SymKeyFormatInt,
    data: &[u8],
    aad: &[u8],
    sign_key: Option<&SignKeyFormatInt>,
    nonce: &[u8],
) -> (res: Result<(EncryptedHead, Vec<u8>), SdkError>)
    ensures
        result_raw(res) == raw_sym_encrypted(key@, nonce@, aad@, data@, signer_of(sign_key)),
        res matches Ok((head, encrypted)) ==> opens_sym(
            key.key.bytes(),
            aad@,
            encrypted@,
            head@,
            data@,
            signer_of(sign_key),
        ),
{
    let encrypted = match key.key.encrypt_with_nonce(nonce, aad, data) {
        Ok(encrypted) => encrypted,
        Err(e) => { return Err(SdkError::Base(e)); },
    };
    finish_raw_encrypt(key.key_id.as_str(), encrypted, sign_key)
}

/// Encrypts `data` under `key`, binding the associated data `aad`, and
/// signs the ciphertext where `sign_key` is given.
///
/// Fails with `EncryptionFailedRng` where the system gives no random
/// bytes, and as `encrypt_raw_symmetric_with_nonce` does, which says what
/// is made of them. Decrypting the result under `key` with `aad` gives
/// `data` back, for every receiver whose verification key fits `sign_key`
/// or who has none.
pub fn encrypt_raw_symmetric_with_aad(
    key: &SymKeyFormatInt,
    data: &[u8],
    aad: &[u8],
    sign_key: Option<&SignKeyFormatInt>,
) -> (res: Result<(EncryptedHead, Vec<u8>), SdkError>)
    ensures
        res matches Ok((head, encrypted)) ==> head@ == head_for(key.key_id@, signer_of(sign_key))
            && (forall|verifier: Option<VerifierView>|
            verifier_fits(verifier, signer_of(sign_key)) ==> #[trigger] raw_sym_decrypted(
                key.key.bytes(),
                aad@,
                encrypted@,
                head@,
                verifier,
            ) == Ok::<Seq<u8>, SdkError>(data@)),
        res matches Err(e) ==> e == SdkError::Base(Error::EncryptionFailedRng) || e
            == SdkError::Base(Error::EncryptionFailed),
{
    match random_bytes(AES_NONCE_LENGTH) {
        Some(nonce) => encrypt_raw_symmetric_with_nonce(key, data, aad, sign_key, nonce.as_slice()),
        None => Err(SdkError::Base(Error::EncryptionFailedRng)),
    }
}

/// Encrypts `data` under `key` and signs the ciphertext where `sign_key`
/// is given.
///
/// Fails and decrypts as `encrypt_raw_symmetric_with_aad` does, without
/// associated data.
pub fn encrypt_raw_symmetric(
    key: &SymKeyFormatInt,
    data: &[u8],
    sign_key: Option<&SignKeyFormatInt>,
) -> (res: Result<(EncryptedHead, Vec<u8>), SdkError>)
    ensures
        res matches Ok((head, encrypted)) ==> head@ == head_for(key.key_id@, signer_of(sign_key))
            && (forall|verifier: Option<VerifierView>|
            verifier_fits(verifier, signer_of(sign_key)) ==> #[trigger] raw_sym_decrypted(
                key.key.bytes(),
                Seq::<u8>::empty(),
                encrypted@,
                head@,
                verifier,
            ) == Ok::<Seq<u8>, SdkError>(data@)),
        res matches Err(e) ==> e == SdkError::Base(Error::EncryptionFailedRng) || e
            == SdkError::Base(Error::EncryptionFailed),
{
    let aad: [u8; 0] = [];
    assert(aad@ =~= Seq::<u8>::empty());
    encrypt_raw_symmetric_with_aad(key, data, aad.as_slice(), sign_key)
}

/// Decrypts `encrypted_data` under `key` with the associated data `aad`,
/// after the signature that `head` announces is dealt with.
///
/// Fails as `prepare_decrypt` and symmetric decryption do.
pub fn decrypt_raw_symmetric_with_aad(
    key: &SymKeyFormatInt,
    encrypted_data: &[u8],
    aad: &[u8],
    head: &EncryptedHead,
    verify_key: Option<&UserVerifyKeyData>,
) -> (res: Result<Vec<u8>, SdkError>)
    ensures
        sdk_bytes(res) == raw_sym_decrypted(
            key.key.bytes(),
            aad@,
            encrypted_data@,
            head@,
            verifier_of(verify_key),
        ),
{
    let ciphertext = match prepare_decrypt(encrypted_data, head, verify_key) {
        Ok(ciphertext) => ciphertext,
        Err(e) => { return Err(e); },
    };
    match key.key.decrypt_with_aad(ciphertext, aad) {
        Ok(data) => Ok(data),
        Err(e) => Err(SdkError::Base(e)),
    }
}

/// Decrypts `encrypted_data` under `key`, after the signature that `head`
/// announces is dealt with.
///
/// Fails as `prepare_decrypt` and symmetric decryption do.
pub fn decrypt_raw_symmetric(
    key: &SymKeyFormatInt,
    encrypted_data: &[u8],
    head: &EncryptedHead,
    verify_key: Option<&UserVerifyKeyData>,
) -> (res: Result<Vec<u8>, SdkError>)
    ensures
        sdk_bytes(res) == raw_sym_decrypted(
            key.key.bytes(),
            Seq::<u8>::empty(),
            encrypted_data@,
            head@,
            verifier_of(verify_key),
        ),
{
    let aad: [u8; 0] = [];
    assert(aad@ =~= Seq::<u8>::empty());
    decrypt_raw_symmetric_with_aad(key, encrypted_data, aad.as_slice(), head, verify_key)
}

/// Encrypts `data` for the owner of the public key `reply_public_key_data`
/// with the random bytes `entropy`, and signs the ciphertext where
/// `sign_key` is given.
///
/// The result is a function of the arguments. The random bytes must not
/// be used for a second message: the functions without them draw fresh
/// ones on each call. Fails where the public key cannot be read, with
/// `EncryptionFailedRng` where `entropy` has not the 44 bytes that a
/// message takes, and with `EncryptionFailed` where a primitive refuses
/// its input. Decrypting the result with the secret key that belongs to
/// the public key gives `data` back, for every receiver whose verification
/// key fits `sign_key` or who has none.
pub fn encrypt_raw_asymmetric_with_entropy(
    reply_public_key_data: &UserPublicKeyData,
    data: &[u8],
    sign_key: Option<&SignKeyFormatInt>,
    entropy: &[u8],
) -> (res: Result<(EncryptedHead, Vec<u8>), SdkError>)
    ensures
        result_raw(res) == raw_asym_encrypted(
            reply_public_key_data.imported(),
            entropy@,
            data@,
            signer_of(sign_key),
        ),
        res matches Ok((head, encrypted)) ==> reply_public_key_data.imported() matches Ok(public)
            && opens_asym(public.bytes, encrypted@, head@, data@, signer_of(sign_key)),
{
    let public_key = match import_public_key_from_user_data(reply_public_key_data) {
        Ok(key) => key,
        Err(e) => { return Err(SdkError::Base(e)); },
    };
    if entropy.len() != ASYM_ENTROPY_LENGTH {
        return Err(SdkError::Base(Error::EncryptionFailedRng));
    }
    let ephemeral = match to_array::<32>(slice_subrange(entropy, 0, X25519_LENGTH)) {
        Some(ephemeral) => ephemeral,
        None => { return Err(SdkError::Base(Error::EncryptionFailedRng)); },
    };
    let nonce = slice_subrange(entropy, X25519_LENGTH, ASYM_ENTROPY_LENGTH);
    let encrypted = match public_key.key.encrypt_with_ephemeral(&ephemeral, nonce, data) {
        Ok(encrypted) => encrypted,
        Err(e) => { return Err(SdkError::Base(e)); },
    };
    finish_raw_encrypt(public_key.key_id.as_str(), encrypted, sign_key)
}

/// Encrypts `data` for the owner of the public key `reply_public_key_data`
/// and signs the ciphertext where `sign_key` is given.
///
/// Fails where the public key cannot be read, with `EncryptionFailedRng`
/// where the system gives no random bytes, and as
/// `encrypt_raw_asymmetric_with_entropy` does, which says what is made of
/// them. Decrypting the result with the secret key that belongs to the
/// public key gives `data` back, for every receiver whose verification key
/// fits `sign_key` or who has none.
pub fn encrypt_raw_asymmetric(
    reply_public_key_data: &UserPublicKeyData,
    data: &[u8],
    sign_key: Option<&SignKeyFormatInt>,
) -> (res: Result<(EncryptedHead, Vec<u8>), SdkError>)
    ensures
        res matches Ok((head, encrypted)) ==> reply_public_key_data.imported() matches Ok(public)
            && head@ == head_for(public.id, signer_of(sign_key)) && (forall|
            secret: Seq<u8>,
            verifier: Option<VerifierView>,
        |
            is_key_pair(secret, public.bytes) && verifier_fits(verifier, signer_of(sign_key))
                ==> #[trigger] raw_asym_decrypted(secret, encrypted@, head@, verifier) == Ok::<
                Seq<u8>,
                SdkError,
            >(data@)),
        reply_public_key_data.imported() matches Err(e) ==> res == Err::<
            (EncryptedHead, Vec<u8>),
            SdkError,
        >(SdkError::Base(e)),
        res matches Err(e) ==> reply_public_key_data.imported() is Err || e == SdkError::Base(
            Error::EncryptionFailedRng,
        ) || e == SdkError::Base(Error::EncryptionFailed),
{
    match import_public_key_from_user_data(reply_public_key_data) {
        Ok(_) => {},
        Err(e) => { return Err(SdkError::Base(e)); },
    }
    match random_bytes(ASYM_ENTROPY_LENGTH) {
        Some(entropy) => encrypt_raw_asymmetric_with_entropy(
            reply_public_key_data,
            data,
            sign_key,
            entropy.as_slice(),
        ),
        None => Err(SdkError::Base(Error::EncryptionFailedRng)),
    }
}

/// Decrypts `encrypted_data` with `private_key`, after the signature that
/// `head` announces is dealt with.
///
/// Fails as `prepare_decrypt` and asymmetric decryption do.
pub fn decrypt_raw_asymmetric(
    private_key: &PrivateKeyFormatInt,
    encrypted_data: &[u8],
    head: &EncryptedHead,
    verify_key: Option<&UserVerifyKeyData>,
) -> (res: Result<Vec<u8>, SdkError>)
    ensures
        sdk_bytes(res) == raw_asym_decrypted(
            private_key.key.bytes(),
            encrypted_data@,
            head@,
            verifier_of(verify_key),
        ),
{
    let ciphertext = match prepare_decrypt(encrypted_data, head, verify_key) {
        Ok(ciphertext) => ciphertext,
        Err(e) => { return Err(e); },
    };
    match private_key.key.decrypt(ciphertext) {
        Ok(data) => Ok(data),
        Err(e) => Err(SdkError::Base(e)),
    }
}

/// The JSON text of a head.
pub open spec fn head_text(head: EncryptedHeadView) -> Seq<char> {
    let sign = match head.sign {
        None => "null"@,
        Some(sign) => "{\"id\":"@ + json_quoted(sign.id) + ",\"alg\":"@ + json_quoted(sign.alg)
            + "}"@,
    };
    "{\"id\":"@ + json_quoted(head.id) + ",\"sign\":"@ + sign + "}"@
}

/// The head that a JSON document holds.
///
/// The document needs a string at `id`. Where it has nothing or `null`
/// at `sign`, the data is not signed; else it needs strings at `id` and
/// `alg` below `sign`. A document that is no JSON fails with what the
/// parser said of it, a document of another shape with `JsonParseFailed`.
pub open spec fn head_parsed(document: Seq<u8>) -> Result<EncryptedHeadView, SdkErrorView> {
    match json_value_at(document, "/id"@) {
        JsonNodeView::Text(id) => match json_value_at(document, "/sign"@) {
            JsonNodeView::Null | JsonNodeView::Missing => Ok(EncryptedHeadView { id, sign: None }),
            JsonNodeView::Other => match (
                json_value_at(document, "/sign/id"@),
                json_value_at(document, "/sign/alg"@),
            ) {
                (JsonNodeView::Text(sign_id), JsonNodeView::Text(alg)) => Ok(
                    EncryptedHeadView { id, sign: Some(SignHeadView { id: sign_id, alg }) },
                ),
                _ => Err(SdkErrorView::Base(Error::JsonParseFailed)),
            },
            _ => Err(SdkErrorView::Base(Error::JsonParseFailed)),
        },
        other => Err(no_head_failure(other)),
    }
}

/// The failure of reading a head from a document that holds no string at
/// `id`: for a document that is no JSON what the parser said of it, and
/// else that the document has not the shape of a head.
pub open spec fn no_head_failure(at_id: JsonNodeView) -> SdkErrorView {
    match at_id {
        JsonNodeView::Invalid(message) => SdkErrorView::JsonParseFailed(message),
        _ => SdkErrorView::Base(Error::JsonParseFailed),
    }
}

/// A head and a ciphertext in one buffer: the text of the head, a zero
/// byte, the ciphertext.
pub open spec fn framed(head: Seq<u8>, encrypted: Seq<u8>) -> Seq<u8> {
    head + seq![0u8] + encrypted
}

/// The number of bytes in front of the first zero byte of `data`, or the
/// length of `data` where it holds no zero byte.
pub open spec fn head_length(data: Seq<u8>) -> nat
    decreases data.len(),
{
    if data.len() == 0 || data[0] == 0 {
        0
    } else {
        1 + head_length(data.drop_first())
    }
}

/// The text of the head and the ciphertext that a buffer holds: what
/// stands in front of the first zero byte and what stands behind it.
pub open spec fn unframed(data: Seq<u8>) -> Option<(Seq<u8>, Seq<u8>)> {
    let end = head_length(data);
    if end >= data.len() {
        None
    } else {
        Some((data.subrange(0, end as int), data.subrange(end as int + 1, data.len() as int)))
    }
}

/// The place of the first zero byte is the place that has a zero byte, or
/// the end, behind bytes that are not zero.
pub proof fn lemma_head_length(data: Seq<u8>, end: int)
    requires
        0 <= end <= data.len(),
        forall|i: int| 0 <= i < end ==> data[i] != 0,
        end < data.len() ==> data[end] == 0,
    ensures
        head_length(data) == end,
    decreases end,
{
    if end > 0 {
        let rest = data.drop_first();
        assert forall|i: int| 0 <= i < end - 1 implies rest[i] != 0 by {
            assert(rest[i] == data[i + 1]);
        }
        if end < data.len() {
            assert(rest[end - 1] == data[end]);
        }
        lemma_head_length(rest, end - 1);
    }
}

/// The head that a buffer holds in front of its ciphertext. A buffer
/// without a zero byte holds none: it fails as reading a head from the
/// whole of it does.
pub open spec fn head_and_encrypted(data: Seq<u8>) -> Result<
    (EncryptedHeadView, Seq<u8>),
    SdkErrorView,
> {
    match unframed(data) {
        None => Err(no_head_failure(json_value_at(data, "/id"@))),
        Some((text, encrypted)) => match head_parsed(text) {
            Ok(head) => Ok((head, encrypted)),
            Err(e) => Err(e),
        },
    }
}

/// A result of this layer with its failure as what it holds.
pub open spec fn viewed(res: Result<Seq<u8>, SdkError>) -> Result<Seq<u8>, SdkErrorView> {
    match res {
        Ok(bytes) => Ok(bytes),
        Err(e) => Err(e@),
    }
}

/// The bytes and the failure of a result that holds a buffer.
pub open spec fn sdk_view(res: Result<Vec<u8>, SdkError>) -> Result<Seq<u8>, SdkErrorView> {
    match res {
        Ok(bytes) => Ok(bytes@),
        Err(e) => Err(e@),
    }
}

/// What `decrypt_symmetric_with_aad` gives.
pub open spec fn sym_decrypted_with_head(
    key: Seq<u8>,
    aad: Seq<u8>,
    data: Seq<u8>,
    verifier: Option<VerifierView>,
) -> Result<Seq<u8>, SdkErrorView> {
    match head_and_encrypted(data) {
        Ok((head, encrypted)) => viewed(raw_sym_decrypted(key, aad, encrypted, head, verifier)),
        Err(e) => Err(e),
    }
}

/// What `decrypt_asymmetric` gives.
pub open spec fn asym_decrypted_with_head(
    secret: Seq<u8>,
    data: Seq<u8>,
    verifier: Option<VerifierView>,
) -> Result<Seq<u8>, SdkErrorView> {
    match head_and_encrypted(data) {
        Ok((head, encrypted)) => viewed(raw_asym_decrypted(secret, encrypted, head, verifier)),
        Err(e) => Err(e),
    }
}

/// What `decrypt_string_symmetric` gives.
pub open spec fn sym_decrypted_from_text(
    key: Seq<u8>,
    text: Seq<char>,
    verifier: Option<VerifierView>,
) -> Result<Seq<u8>, SdkErrorView> {
    match text_decoded(text) {
        Ok(buffer) => sym_decrypted_with_head(key, Seq::<u8>::empty(), buffer, verifier),
        Err(e) => Err(e@),
    }
}

/// What `decrypt_string_asymmetric` gives.
pub open spec fn asym_decrypted_from_text(
    secret: Seq<u8>,
    text: Seq<char>,
    verifier: Option<VerifierView>,
) -> Result<Seq<u8>, SdkErrorView> {
    match text_decoded(text) {
        Ok(buffer) => asym_decrypted_with_head(secret, buffer, verifier),
        Err(e) => Err(e@),
    }
}

/// Whether `buffer` holds, behind the head `head`, a ciphertext that
/// decrypts under the symmetric key `key` with `aad` to `data`, for every
/// receiver whose verification key fits `signer` or who has none.
pub open spec fn holds_sym_encryption(
    buffer: Seq<u8>,
    head: EncryptedHeadView,
    key: Seq<u8>,
    aad: Seq<u8>,
    data: Seq<u8>,
    signer: Option<KeyView>,
) -> bool {
    exists|encrypted: Seq<u8>|
        {
            &&& buffer == framed(vstd::utf8::encode_utf8(head_text(head)), encrypted)
            &&& forall|verifier: Option<VerifierView>|
                verifier_fits(verifier, signer) ==> #[trigger] raw_sym_decrypted(
                    key,
                    aad,
                    encrypted,
                    head,
                    verifier,
                ) == Ok::<Seq<u8>, SdkError>(data)
        }
}

/// Whether `buffer` holds, behind the head `head`, a ciphertext that
/// decrypts with every secret key of the public key `public` to `data`,
/// for every receiver whose verification key fits `signer` or who has
/// none.
pub open spec fn holds_asym_encryption(
    buffer: Seq<u8>,
    head: EncryptedHeadView,
    public: Seq<u8>,
    data: Seq<u8>,
    signer: Option<KeyView>,
) -> bool {
    exists|encrypted: Seq<u8>|
        {
            &&& buffer == framed(vstd::utf8::encode_utf8(head_text(head)), encrypted)
            &&& forall|secret: Seq<u8>, verifier: Option<VerifierView>|
                is_key_pair(secret, public) && verifier_fits(verifier, signer)
                    ==> #[trigger] raw_asym_decrypted(secret, encrypted, head, verifier) == Ok::<
                    Seq<u8>,
                    SdkError,
                >(data)
        }
}

/// Whether `buffer` decrypts under the symmetric key `key` with `aad` to
/// `data`, read as `decrypt_symmetric_with_aad` reads it, for every
/// receiver whose verification key fits `signer` or who has none.
pub open spec fn sym_decrypts_to(
    buffer: Seq<u8>,
    key: Seq<u8>,
    aad: Seq<u8>,
    data: Seq<u8>,
    signer: Option<KeyView>,
) -> bool {
    forall|verifier: Option<VerifierView>|
        verifier_fits(verifier, signer) ==> #[trigger] sym_decrypted_with_head(
            key,
            aad,
            buffer,
            verifier,
        ) == Ok::<Seq<u8>, SdkErrorView>(data)
}

/// Whether `buffer` decrypts with every secret key of the public key
/// `public` to `data`, read as `decrypt_asymmetric` reads it, for every
/// receiver whose verification key fits `signer` or who has none.
pub open spec fn asym_decrypts_to(
    buffer: Seq<u8>,
    public: Seq<u8>,
    data: Seq<u8>,
    signer: Option<KeyView>,
) -> bool {
    forall|secret: Seq<u8>, verifier: Option<VerifierView>|
        is_key_pair(secret, public) && verifier_fits(verifier, signer)
            ==> #[trigger] asym_decrypted_with_head(secret, buffer, verifier) == Ok::<
            Seq<u8>,
            SdkErrorView,
        >(data)
}

/// Whether `e` is a failure of an encryption that puts the head in front:
/// the system gave no random bytes, the cipher refused the input, or the
/// head could not be written as a text that reads back.
pub open spec fn is_framed_encryption_failure(e: SdkError) -> bool {
    ||| e == SdkError::Base(Error::EncryptionFailedRng)
    ||| e == SdkError::Base(Error::EncryptionFailed)
    ||| e == SdkError::Base(Error::JsonToStringFailed)
}

/// What a result that holds a head holds.
pub open spec fn result_head(res: Result<EncryptedHead, SdkError>) -> Result<
    EncryptedHeadView,
    SdkErrorView,
> {
    match res {
        Ok(head) => Ok(head@),
        Err(e) => Err(e@),
    }
}

/// What a result that holds a head and a ciphertext holds.
pub open spec fn result_head_and_encrypted(res: Result<(EncryptedHead, &[u8]), SdkError>)
    -> Result<(EncryptedHeadView, Seq<u8>), SdkErrorView> {
    match res {
        Ok((head, encrypted)) => Ok((head@, encrypted@)),
        Err(e) => Err(e@),
    }
}

/// Whether the JSON text of `head` reads back: it holds no zero byte, so
/// that it ends where the buffer is split, and reading it gives `head`.
/// `EncryptedHead::reads_back` tests it, and the functions that encrypt
/// with the head in front hand out no buffer whose head fails the test.
pub open spec fn head_reads_back(head: EncryptedHeadView) -> bool {
    let text = vstd::utf8::encode_utf8(head_text(head));
    &&& forall|i: int| 0 <= i < text.len() ==> text[i] != 0
    &&& head_parsed(text) == Ok::<EncryptedHeadView, SdkErrorView>(head)
}

proof fn lemma_unframed(text: Seq<u8>, encrypted: Seq<u8>)
    requires
        forall|i: int| 0 <= i < text.len() ==> text[i] != 0,
    ensures
        unframed(framed(text, encrypted)) == Some((text, encrypted)),
{
    let buffer = framed(text, encrypted);
    assert forall|i: int| 0 <= i < text.len() implies buffer[i] != 0 by {
        assert(buffer[i] == text[i]);
    }
    assert(buffer[text.len() as int] == 0);
    lemma_head_length(buffer, text.len() as int);
    assert(buffer.subrange(0, text.len() as int) =~= text);
    assert(buffer.subrange(text.len() as int + 1, buffer.len() as int) =~= encrypted);
}

/// Encryption and decryption with the head in front are inverse to each
/// other, as far as the JSON text of the head reads back: a buffer that
/// holds a ciphertext for `data` behind such a head decrypts under the
/// key to `data`, for every receiver whose verification key fits the
/// signer or who has none.
pub proof fn lemma_sym_round_trip_with_head(
    buffer: Seq<u8>,
    head: EncryptedHeadView,
    key: Seq<u8>,
    aad: Seq<u8>,
    data: Seq<u8>,
    signer: Option<KeyView>,
    verifier: Option<VerifierView>,
)
    requires
        holds_sym_encryption(buffer, head, key, aad, data, signer),
        verifier_fits(verifier, signer),
        head_reads_back(head),
    ensures
        sym_decrypted_with_head(key, aad, buffer, verifier) == Ok::<Seq<u8>, SdkErrorView>(data),
{
    let text = vstd::utf8::encode_utf8(head_text(head));
    let encrypted = choose|encrypted: Seq<u8>|
        {
            &&& buffer == framed(text, encrypted)
            &&& forall|v: Option<VerifierView>|
                verifier_fits(v, signer) ==> #[trigger] raw_sym_decrypted(
                    key,
                    aad,
                    encrypted,
                    head,
                    v,
                ) == Ok::<Seq<u8>, SdkError>(data)
        };
    lemma_unframed(text, encrypted);
    assert(raw_sym_decrypted(key, aad, encrypted, head, verifier) == Ok::<Seq<u8>, SdkError>(
        data,
    ));
}

/// Encryption for a public key and decryption with the head in front are
/// inverse to each other, as far as the JSON text of the head reads back:
/// a buffer that holds a ciphertext for `data` behind such a head
/// decrypts with a private key of the public key to `data`, for every
/// receiver whose verification key fits the signer or who has none.
pub proof fn lemma_asym_round_trip_with_head(
    buffer: Seq<u8>,
    head: EncryptedHeadView,
    public: Seq<u8>,
    secret: Seq<u8>,
    data: Seq<u8>,
    signer: Option<KeyView>,
    verifier: Option<VerifierView>,
)
    requires
        holds_asym_encryption(buffer, head, public, data, signer),
        is_key_pair(secret, public),
        verifier_fits(verifier, signer),
        head_reads_back(head),
    ensures
        asym_decrypted_with_head(secret, buffer, verifier) == Ok::<Seq<u8>, SdkErrorView>(
            data,
        ),
{
    let text = vstd::utf8::encode_utf8(head_text(head));
    let encrypted = choose|encrypted: Seq<u8>|
        {
            &&& buffer == framed(text, encrypted)
            &&& forall|s: Seq<u8>, v: Option<VerifierView>|
                is_key_pair(s, public) && verifier_fits(v, signer)
                    ==> #[trigger] raw_asym_decrypted(s, encrypted, head, v) == Ok::<
                    Seq<u8>,
                    SdkError,
                >(data)
        };
    lemma_unframed(text, encrypted);
    assert(raw_asym_decrypted(secret, encrypted, head, verifier) == Ok::<Seq<u8>, SdkError>(
        data,
    ));
}

impl EncryptedHead {
    /// Writes this head as JSON text.
    pub fn to_string(&self) -> (text: String)
        ensures
            text@ == head_text(self@),
    {
        let mut text = String::from_str("{\"id\":");
        let id = json_quote(self.id.as_str());
        text.append(id.as_str());
        text.append(",\"sign\":");
        match &self.sign {
            None => {
                text.append("null");
            },
            Some(sign) => {
                text.append("{\"id\":");
                let sign_id = json_quote(sign.id.as_str());
                text.append(sign_id.as_str());
                text.append(",\"alg\":");
                let alg = json_quote(sign.alg.as_str());
                text.append(alg.as_str());
                text.append("}");
            },
        }
        text.append("}");
        assert(text@ =~= head_text(self@));
        text
    }

    /// Reads a head from JSON text.
    ///
    /// Fails with what the parser said where the text is no JSON, and with
    /// `JsonParseFailed` where it lacks what a head needs.
    pub fn from_bytes(document: &[u8]) -> (res: Result<EncryptedHead, SdkError>)
        ensures
            result_head(res) == head_parsed(document@),
    {
        let id = match json_lookup(document, "/id") {
            JsonNode::Text(id) => id,
            other => { return Err(no_head(other)); },
        };
        match json_lookup(document, "/sign") {
            JsonNode::Null => Ok(EncryptedHead { id, sign: None }),
            JsonNode::Missing => Ok(EncryptedHead { id, sign: None }),
            JsonNode::Other => {
                let sign_id = match json_lookup(document, "/sign/id") {
                    JsonNode::Text(sign_id) => sign_id,
                    _ => { return Err(SdkError::Base(Error::JsonParseFailed)); },
                };
                match json_lookup(document, "/sign/alg") {
                    JsonNode::Text(alg) => Ok(
                        EncryptedHead { id, sign: Some(SignHead { id: sign_id, alg }) },
                    ),
                    _ => Err(SdkError::Base(Error::JsonParseFailed)),
                }
            },
            _ => Err(SdkError::Base(Error::JsonParseFailed)),
        }
    }
}

impl EncryptedHead {
    /// Tests whether the JSON text of this head reads back, which is what
    /// the round trip of encryption and decryption with the head in front
    /// asks of a head: writes the text, looks for a zero byte in it, reads
    /// it and compares.
    pub fn reads_back(&self) -> (res: bool)
        ensures
            res == head_reads_back(self@),
    {
        let text = self.to_string();
        let bytes = text.as_str().as_bytes();
        let mut i: usize = 0;
        while i < bytes.len()
            invariant
                i <= bytes@.len(),
                bytes@ == vstd::utf8::encode_utf8(head_text(self@)),
                forall|j: int| 0 <= j < i ==> bytes@[j] != 0,
            decreases bytes@.len() - i,
        {
            if bytes[i] == 0 {
                assert(vstd::utf8::encode_utf8(head_text(self@))[i as int] == 0);
                return false;
            }
            i += 1;
        }
        match EncryptedHead::from_bytes(bytes) {
            Ok(head) => same_head(&head, self),
            Err(_) => false,
        }
    }
}

/// Whether two heads name the same key and the same signer.
fn same_head(first: &EncryptedHead, second: &EncryptedHead) -> (res: bool)
    ensures
        res == (first@ == second@),
{
    if !same_text(first.id.as_str(), second.id.as_str()) {
        return false;
    }
    match (&first.sign, &second.sign) {
        (None, None) => true,
        (Some(a), Some(b)) => same_text(a.id.as_str(), b.id.as_str()) && same_text(
            a.alg.as_str(),
            b.alg.as_str(),
        ),
        _ => false,
    }
}

/// The failure of reading a head from a document that holds `at_id`, and
/// no string, at `id`.
fn no_head(at_id: JsonNode) -> (failure: SdkError)
    ensures
        failure@ == no_head_failure(at_id@),
{
    match at_id {
        JsonNode::Invalid(message) => SdkError::JsonParseFailed(message),
        _ => SdkError::Base(Error::JsonParseFailed),
    }
}

/// Puts the head in front of the ciphertext: its JSON text, a zero byte,
/// the ciphertext.
pub fn put_head_and_encrypted_data(head: &EncryptedHead, encrypted: &[u8]) -> (res: Vec<u8>)
    ensures
        res@ == framed(vstd::utf8::encode_utf8(head_text(head@)), encrypted@),
{
    let text = head.to_string();
    let mut res = slice_to_vec(text.as_str().as_bytes());
    res.push(0u8);
    res.extend_from_slice(encrypted);
    assert(res@ =~= framed(vstd::utf8::encode_utf8(head_text(head@)), encrypted@));
    res
}

/// Puts the head in front of the ciphertext, after a test that the text
/// of the head reads back, so that what is handed out can be decrypted.
fn frame_encrypted(head: &EncryptedHead, encrypted: &[u8]) -> (res: Result<Vec<u8>, SdkError>)
    ensures
        match res {
            Ok(buffer) => head_reads_back(head@) && buffer@ == framed(
                vstd::utf8::encode_utf8(head_text(head@)),
                encrypted@,
            ),
            Err(e) => e == SdkError::Base(Error::JsonToStringFailed) && !head_reads_back(head@),
        },
{
    if !head.reads_back() {
        return Err(SdkError::Base(Error::JsonToStringFailed));
    }
    Ok(put_head_and_encrypted_data(head, encrypted))
}

/// Splits a buffer at its first zero byte and reads the head in front of
/// it; what is behind it is the ciphertext.
///
/// Fails as reading a head does: with what the parser said where the
/// text in front of the zero byte is no JSON, with `JsonParseFailed` where
/// it is no head. A buffer without a zero byte fails as reading a head
/// from the whole of it does.
pub fn split_head_and_encrypted_data<'a>(data_with_head: &'a [u8]) -> (res: Result<
    (EncryptedHead, &'a [u8]),
    SdkError,
>)
    ensures
        result_head_and_encrypted(res) == head_and_encrypted(data_with_head@),
{
    let mut end: usize = 0;
    while end < data_with_head.len() && data_with_head[end] != 0
        invariant
            end <= data_with_head@.len(),
            forall|i: int| 0 <= i < end ==> data_with_head@[i] != 0,
        decreases data_with_head@.len() - end,
    {
        end += 1;
    }
    proof {
        lemma_head_length(data_with_head@, end as int);
    }
    if end >= data_with_head.len() {
        return Err(no_head(json_lookup(data_with_head, "/id")));
    }
    let text = slice_subrange(data_with_head, 0, end);
    let encrypted = slice_subrange(data_with_head, end + 1, data_with_head.len());
    match EncryptedHead::from_bytes(text) {
        Ok(head) => Ok((head, encrypted)),
        Err(e) => Err(e),
    }
}

/// Encrypts `data` under `key`, binding the associated data `aad`, signs
/// the ciphertext where `sign_key` is given, and puts the head in front.
///
/// Fails where the system gives no random bytes or the cipher refuses the
/// input, and with `JsonToStringFailed` where the head cannot be written
/// as a text that reads back, which is tested before the result is handed
/// out. The result holds, behind its head, a ciphertext that decrypts
/// under `key` with `aad` to `data`: `decrypt_symmetric_with_aad` gives
/// `data` back.
pub fn encrypt_symmetric_with_aad(
    key: &SymKeyFormatInt,
    data: &[u8],
    aad: &[u8],
    sign_key: Option<&SignKeyFormatInt>,
) -> (res: Result<Vec<u8>, SdkError>)
    ensures
        res matches Ok(buffer) ==> holds_sym_encryption(
            buffer@,
            head_for(key.key_id@, signer_of(sign_key)),
            key.key.bytes(),
            aad@,
            data@,
            signer_of(sign_key),
        ),
        res matches Ok(buffer) ==> sym_decrypts_to(
            buffer@,
            key.key.bytes(),
            aad@,
            data@,
            signer_of(sign_key),
        ),
        res matches Err(e) ==> is_framed_encryption_failure(e),
        res == Err::<Vec<u8>, SdkError>(SdkError::Base(Error::JsonToStringFailed))
            ==> !head_reads_back(head_for(key.key_id@, signer_of(sign_key))),
{
    let (head, encrypted) = match encrypt_raw_symmetric_with_aad(key, data, aad, sign_key) {
        Ok(parts) => parts,
        Err(e) => { return Err(e); },
    };
    let buffer = match frame_encrypted(&head, encrypted.as_slice()) {
        Ok(buffer) => buffer,
        Err(e) => { return Err(e); },
    };
    proof {
        let signer = signer_of(sign_key);
        assert(holds_sym_encryption(buffer@, head@, key.key.bytes(), aad@, data@, signer));
        assert forall|verifier: Option<VerifierView>|
            verifier_fits(verifier, signer) implies #[trigger] sym_decrypted_with_head(
            key.key.bytes(),
            aad@,
            buffer@,
            verifier,
        ) == Ok::<Seq<u8>, SdkErrorView>(data@) by {
            lemma_sym_round_trip_with_head(
                buffer@,
                head@,
                key.key.bytes(),
                aad@,
                data@,
                signer,
                verifier,
            );
        }
    }
    Ok(buffer)
}

/// Encrypts `data` under `key`, signs the ciphertext where `sign_key` is
/// given, and puts the head in front.
///
/// Fails and decrypts as `encrypt_symmetric_with_aad` does, without
/// associated data.
pub fn encrypt_symmetric(key: &SymKeyFormatInt, data: &[u8], sign_key: Option<&SignKeyFormatInt>)
    -> (res: Result<Vec<u8>, SdkError>)
    ensures
        res matches Ok(buffer) ==> holds_sym_encryption(
            buffer@,
            head_for(key.key_id@, signer_of(sign_key)),
            key.key.bytes(),
            Seq::<u8>::empty(),
            data@,
            signer_of(sign_key),
        ),
        res matches Ok(buffer) ==> sym_decrypts_to(
            buffer@,
            key.key.bytes(),
            Seq::<u8>::empty(),
            data@,
            signer_of(sign_key),
        ),
        res matches Err(e) ==> is_framed_encryption_failure(e),
        res == Err::<Vec<u8>, SdkError>(SdkError::Base(Error::JsonToStringFailed))
            ==> !head_reads_back(head_for(key.key_id@, signer_of(sign_key))),
{
    let aad: [u8; 0] = [];
    assert(aad@ =~= Seq::<u8>::empty());
    encrypt_symmetric_with_aad(key, data, aad.as_slice(), sign_key)
}

/// Reads the head in front of the ciphertext and decrypts the ciphertext
/// under `key` with the associated data `aad`.
///
/// Fails as `split_head_and_encrypted_data` and
/// `decrypt_raw_symmetric_with_aad` do.
pub fn decrypt_symmetric_with_aad(
    key: &SymKeyFormatInt,
    encrypted_data_with_head: &[u8],
    aad: &[u8],
    verify_key: Option<&UserVerifyKeyData>,
) -> (res: Result<Vec<u8>, SdkError>)
    ensures
        sdk_view(res) == sym_decrypted_with_head(
            key.key.bytes(),
            aad@,
            encrypted_data_with_head@,
            verifier_of(verify_key),
        ),
{
    let (head, encrypted) = match split_head_and_encrypted_data(encrypted_data_with_head) {
        Ok(parts) => parts,
        Err(e) => { return Err(e); },
    };
    decrypt_raw_symmetric_with_aad(key, encrypted, aad, &head, verify_key)
}

/// Reads the head in front of the ciphertext and decrypts the ciphertext
/// under `key`.
///
/// Fails as `split_head_and_encrypted_data` and `decrypt_raw_symmetric`
/// do.
pub fn decrypt_symmetric(
    key: &SymKeyFormatInt,
    encrypted_data_with_head: &[u8],
    verify_key: Option<&UserVerifyKeyData>,
) -> (res: Result<Vec<u8>, SdkError>)
    ensures
        sdk_view(res) == sym_decrypted_with_head(
            key.key.bytes(),
            Seq::<u8>::empty(),
            encrypted_data_with_head@,
            verifier_of(verify_key),
        ),
{
    let aad: [u8; 0] = [];
    assert(aad@ =~= Seq::<u8>::empty());
    decrypt_symmetric_with_aad(key, encrypted_data_with_head, aad.as_slice(), verify_key)
}

/// Encrypts `data` for the owner of the public key
/// `reply_public_key_data`, signs the ciphertext where `sign_key` is given,
/// and puts the head in front.
///
/// Fails as `encrypt_raw_asymmetric` does, and with `JsonToStringFailed`
/// where the head cannot be written as a text that reads back, which is
/// tested before the result is handed out. The result holds, behind its
/// head, a ciphertext that decrypts with the secret key of the public key
/// to `data`: `decrypt_asymmetric` gives `data` back.
pub fn encrypt_asymmetric(
    reply_public_key_data: &UserPublicKeyData,
    data: &[u8],
    sign_key: Option<&SignKeyFormatInt>,
) -> (res: Result<Vec<u8>, SdkError>)
    ensures
        res matches Ok(buffer) ==> reply_public_key_data.imported() matches Ok(public)
            && holds_asym_encryption(
            buffer@,
            head_for(public.id, signer_of(sign_key)),
            public.bytes,
            data@,
            signer_of(sign_key),
        ) && asym_decrypts_to(buffer@, public.bytes, data@, signer_of(sign_key)),
        reply_public_key_data.imported() matches Err(e) ==> res == Err::<Vec<u8>, SdkError>(
            SdkError::Base(e),
        ),
{
    let (head, encrypted) = match encrypt_raw_asymmetric(reply_public_key_data, data, sign_key) {
        Ok(parts) => parts,
        Err(e) => { return Err(e); },
    };
    let buffer = match frame_encrypted(&head, encrypted.as_slice()) {
        Ok(buffer) => buffer,
        Err(e) => { return Err(e); },
    };
    proof {
        let signer = signer_of(sign_key);
        let public = reply_public_key_data.imported()->Ok_0;
        assert(holds_asym_encryption(buffer@, head@, public.bytes, data@, signer));
        assert forall|secret: Seq<u8>, verifier: Option<VerifierView>|
            is_key_pair(secret, public.bytes) && verifier_fits(
                verifier,
                signer,
            ) implies #[trigger] asym_decrypted_with_head(secret, buffer@, verifier) == Ok::<
            Seq<u8>,
            SdkErrorView,
        >(data@) by {
            lemma_asym_round_trip_with_head(
                buffer@,
                head@,
                public.bytes,
                secret,
                data@,
                signer,
                verifier,
            );
        }
    }
    Ok(buffer)
}

/// Reads the head in front of the ciphertext and decrypts the ciphertext
/// with `private_key`.
///
/// Fails as `split_head_and_encrypted_data` and `decrypt_raw_asymmetric`
/// do.
pub fn decrypt_asymmetric(
    private_key: &PrivateKeyFormatInt,
    encrypted_data_with_head: &[u8],
    verify_key: Option<&UserVerifyKeyData>,
) -> (res: Result<Vec<u8>, SdkError>)
    ensures
        sdk_view(res) == asym_decrypted_with_head(
            private_key.key.bytes(),
            encrypted_data_with_head@,
            verifier_of(verify_key),
        ),
{
    let (head, encrypted) = match split_head_and_encrypted_data(encrypted_data_with_head) {
        Ok(parts) => parts,
        Err(e) => { return Err(e); },
    };
    decrypt_raw_asymmetric(private_key, encrypted, &head, verify_key)
}

/// The buffer that a Base64 text holds.
pub open spec fn text_decoded(text: Seq<char>) -> Result<Seq<u8>, SdkError> {
    match base64_bytes(text) {
        Some(bytes) => Ok(bytes),
        None => Err(SdkError::DecodeEncryptedDataFailed),
    }
}

/// Writes a buffer as Base64 text.
///
/// Fails with `EncryptionFailed` where the buffer is longer than a
/// quarter of the address space.
pub fn encode_encrypted(buffer: &[u8]) -> (res: Result<String, SdkError>)
    ensures
        match res {
            Ok(text) => text@ == base64_text(buffer@) && text_decoded(text@) == Ok::<
                Seq<u8>,
                SdkError,
            >(buffer@),
            Err(e) => e == SdkError::Base(Error::EncryptionFailed) && buffer@.len() * 4
                > usize::MAX,
        },
{
    if buffer.len() > usize::MAX / 4 {
        return Err(SdkError::Base(Error::EncryptionFailed));
    }
    Ok(base64_encode(buffer))
}

/// Reads a buffer from Base64 text.
///
/// Fails with `DecodeEncryptedDataFailed` where the text is no Base64.
pub fn decode_encrypted(text: &str) -> (res: Result<Vec<u8>, SdkError>)
    ensures
        sdk_bytes(res) == text_decoded(text@),
{
    match base64_decode(text) {
        Some(buffer) => Ok(buffer),
        None => Err(SdkError::DecodeEncryptedDataFailed),
    }
}

/// Encrypts as `encrypt_symmetric` does and writes the result as Base64
/// text.
///
/// Fails as `encrypt_symmetric` and `encode_encrypted` do. The text
/// decodes to a buffer that holds, behind its head, a ciphertext that
/// decrypts under `key` to `data`: `decrypt_string_symmetric` gives `data`
/// back.
pub fn encrypt_string_symmetric(
    key: &SymKeyFormatInt,
    data: &[u8],
    sign_key: Option<&SignKeyFormatInt>,
) -> (res: Result<String, SdkError>)
    ensures
        res matches Ok(text) ==> text_decoded(text@) matches Ok(buffer) && holds_sym_encryption(
            buffer,
            head_for(key.key_id@, signer_of(sign_key)),
            key.key.bytes(),
            Seq::<u8>::empty(),
            data@,
            signer_of(sign_key),
        ) && sym_decrypts_to(
            buffer,
            key.key.bytes(),
            Seq::<u8>::empty(),
            data@,
            signer_of(sign_key),
        ),
        res matches Err(e) ==> is_framed_encryption_failure(e),
{
    let buffer = match encrypt_symmetric(key, data, sign_key) {
        Ok(buffer) => buffer,
        Err(e) => { return Err(e); },
    };
    encode_encrypted(buffer.as_slice())
}

/// Reads a buffer from Base64 text and decrypts it as `decrypt_symmetric`
/// does.
///
/// Fails as `decode_encrypted` and `decrypt_symmetric` do.
pub fn decrypt_string_symmetric(
    key: &SymKeyFormatInt,
    encrypted_data_with_head: &str,
    verify_key: Option<&UserVerifyKeyData>,
) -> (res: Result<Vec<u8>, SdkError>)
    ensures
        sdk_view(res) == sym_decrypted_from_text(
            key.key.bytes(),
            encrypted_data_with_head@,
            verifier_of(verify_key),
        ),
{
    let buffer = match decode_encrypted(encrypted_data_with_head) {
        Ok(buffer) => buffer,
        Err(e) => { return Err(e); },
    };
    decrypt_symmetric(key, buffer.as_slice(), verify_key)
}

/// Encrypts as `encrypt_asymmetric` does and writes the result as Base64
/// text.
///
/// Fails as `encrypt_asymmetric` and `encode_encrypted` do. The text
/// decodes to a buffer that holds, behind its head, a ciphertext that
/// decrypts with the secret key of the public key to `data`:
/// `decrypt_string_asymmetric` gives `data` back.
pub fn encrypt_string_asymmetric(
    reply_public_key_data: &UserPublicKeyData,
    data: &[u8],
    sign_key: Option<&SignKeyFormatInt>,
) -> (res: Result<String, SdkError>)
    ensures
        res matches Ok(text) ==> text_decoded(text@) matches Ok(buffer)
            && reply_public_key_data.imported() matches Ok(public) && holds_asym_encryption(
            buffer,
            head_for(public.id, signer_of(sign_key)),
            public.bytes,
            data@,
            signer_of(sign_key),
        ) && asym_decrypts_to(buffer, public.bytes, data@, signer_of(sign_key)),
        reply_public_key_data.imported() matches Err(e) ==> res == Err::<String, SdkError>(
            SdkError::Base(e),
        ),
{
    let buffer = match encrypt_asymmetric(reply_public_key_data, data, sign_key) {
        Ok(buffer) => buffer,
        Err(e) => { return Err(e); },
    };
    encode_encrypted(buffer.as_slice())
}

/// Reads a buffer from Base64 text and decrypts it as `decrypt_asymmetric`
/// does.
///
/// Fails as `decode_encrypted` and `decrypt_asymmetric` do.
pub fn decrypt_string_asymmetric(
    private_key: &PrivateKeyFormatInt,
    encrypted_data_with_head: &str,
    verify_key: Option<&UserVerifyKeyData>,
) -> (res: Result<Vec<u8>, SdkError>)
    ensures
        sdk_view(res) == asym_decrypted_from_text(
            private_key.key.bytes(),
            encrypted_data_with_head@,
            verifier_of(verify_key),
        ),
{
    let buffer = match decode_encrypted(encrypted_data_with_head) {
        Ok(buffer) => buffer,
        Err(e) => { return Err(e); },
    };
    decrypt_asymmetric(private_key, buffer.as_slice(), verify_key)
}

} // verus!
