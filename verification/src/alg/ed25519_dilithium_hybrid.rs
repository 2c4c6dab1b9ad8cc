//! Hybrid signatures: Ed25519 together with Dilithium3.
//!
//! A hybrid signature holds two signatures. The first is an Ed25519
//! signature of the data. The second is a Dilithium3 signature of the data
//! followed by the first signature, so that it covers both. A verifier
//! accepts only where both signatures hold: forging one takes breaking
//! both schemes, the classical one and the one meant to withstand quantum
//! computers.

use vstd::prelude::*;
use vstd::slice::*;

use crate::alg::sign::{result_parts, signed_parts, split_sig_and_data as split_at};
use crate::alg::sym::{result_bytes, sym_decrypted, SymmetricKey};
use crate::bytes::joined;
use crate::error::Error;
use crate::primitives::{
    dilithium3_accepted, dilithium3_keypair, dilithium3_sign, dilithium3_signature,
    dilithium3_signs_for, dilithium3_verify, openssl_ed25519_public,
    openssl_ed25519_public_key, openssl_ed25519_sign, openssl_ed25519_signature,
    bytes_of, openssl_ed25519_verdict, openssl_ed25519_verify, random_bytes, sha256,
    sha256_digest,
    DILITHIUM3_PUBLIC_KEY_LENGTH, DILITHIUM3_SECRET_KEY_LENGTH, DILITHIUM3_SIGNATURE_LENGTH,
    ED25519_KEY_LENGTH, ED25519_SIGNATURE_LENGTH,
};

verus! {

/// The algorithm tag of the hybrid of Ed25519 and Dilithium3.
pub const ED25519_DILITHIUM_HYBRID_REC_OUTPUT: &'static str = "ED25519_DILITHIUM_REC_3";

/// Length of a hybrid signature: both signatures, one after the other.
pub const SIG_LENGTH: usize = ED25519_SIGNATURE_LENGTH + DILITHIUM3_SIGNATURE_LENGTH;

/// A hybrid signature: the Ed25519 signature and the Dilithium3
/// signature.
#[derive(Debug, Clone, PartialEq, Eq)]
pub struct Ed25519DilithiumHybridSig {
    x: Vec<u8>,
    k: Vec<u8>,
}

/// A hybrid key that verifies: the Ed25519 key and the Dilithium3 key.
#[derive(Debug, Clone, PartialEq, Eq)]
pub struct Ed25519DilithiumHybridVerifyKey {
    x: Vec<u8>,
    k: Vec<u8>,
}

/// A hybrid key that signs: the Ed25519 key and the Dilithium3 key.
#[derive(Debug, Clone, PartialEq, Eq)]
pub struct Ed25519DilithiumHybridSignK {
    x: Vec<u8>,
    k: Vec<u8>,
}

/// The two halves of a hybrid signature or of a hybrid key: the Ed25519
/// half and the Dilithium3 half.
pub struct HybridView {
    pub x: Seq<u8>,
    pub k: Seq<u8>,
}

impl View for Ed25519DilithiumHybridSig {
    type V = HybridView;

    closed spec fn view(&self) -> HybridView {
        HybridView { x: self.x@, k: self.k@ }
    }
}

impl View for Ed25519DilithiumHybridVerifyKey {
    type V = HybridView;

    closed spec fn view(&self) -> HybridView {
        HybridView { x: self.x@, k: self.k@ }
    }
}

impl View for Ed25519DilithiumHybridSignK {
    type V = HybridView;

    closed spec fn view(&self) -> HybridView {
        HybridView { x: self.x@, k: self.k@ }
    }
}

/// Whether a verifier with the key `key` accepts the two signatures for
/// `data`: the Dilithium3 key must accept the second signature for the
/// data followed by the first, and the Ed25519 key the first for the data.
pub open spec fn hybrid_verdict(key: HybridView, signature: HybridView, data: Seq<u8>) -> bool {
    &&& dilithium3_accepted(key.k, data + signature.x, signature.k) == Some(true)
    &&& openssl_ed25519_verdict(key.x, data, signature.x)
}

/// Whether the verification key `verify` belongs to the signing key
/// `sign`: its Ed25519 half is derived from that of `sign`, and its
/// Dilithium3 half accepts every signature that `sign` makes.
pub open spec fn is_hybrid_key_pair(sign: HybridView, verify: HybridView) -> bool {
    &&& verify.x == openssl_ed25519_public(sign.x)
    &&& forall|message: Seq<u8>| #[trigger] dilithium3_signs_for(verify.k, sign.k, message)
}

/// The two signatures that signed data starts with.
pub open spec fn hybrid_signature_of(signature: Seq<u8>) -> HybridView {
    HybridView {
        x: signature.subrange(0, ED25519_SIGNATURE_LENGTH as int),
        k: signature.subrange(ED25519_SIGNATURE_LENGTH as int, signature.len() as int),
    }
}

impl Ed25519DilithiumHybridSig {
    /// The two signatures: the Ed25519 signature, then the Dilithium3
    /// signature.
    pub fn get_raw_sig(&self) -> (res: (&[u8], &[u8]))
        ensures
            res.0@ == self@.x,
            res.1@ == self@.k,
    {
        (self.x.as_slice(), self.k.as_slice())
    }

    /// The hybrid signature that holds the Ed25519 signature `x` and the
    /// Dilithium3 signature `k`.
    pub fn from_bytes_owned(x: Vec<u8>, k: Vec<u8>) -> (res: Self)
        ensures
            res@.x == x@,
            res@.k == k@,
    {
        Self { x, k }
    }

    /// The two signatures in one buffer, the Ed25519 signature first.
    pub fn to_bytes(&self) -> (res: Vec<u8>)
        ensures
            res@ == self@.x + self@.k,
    {
        joined(self.x.as_slice(), self.k.as_slice())
    }

    /// The algorithm tag of this signature.
    pub fn get_alg_str(&self) -> (alg: &'static str)
        ensures
            alg@ == ED25519_DILITHIUM_HYBRID_REC_OUTPUT@,
    {
        ED25519_DILITHIUM_HYBRID_REC_OUTPUT
    }
}

/// Splits signed data into the hybrid signature and the data.
///
/// Fails with `DataToSignTooShort` where `data_with_sig` does not hold
/// more than a hybrid signature.
pub fn split_sig_and_data(data_with_sig: &[u8]) -> (res: Result<(&[u8], &[u8]), Error>)
    ensures
        result_parts(res) == signed_parts(data_with_sig@, SIG_LENGTH as nat),
{
    split_at(data_with_sig, SIG_LENGTH)
}

/// What signing makes of the Ed25519 signature that OpenSSL gave, or did
/// not give: the Dilithium3 key signs the data followed by that
/// signature, and the two signatures are the hybrid signature.
pub open spec fn hybrid_signed(ed25519: Option<Seq<u8>>, k: Seq<u8>, data: Seq<u8>) -> Result<
    HybridView,
    Error,
> {
    match ed25519 {
        None => Err(Error::InitSignFailed),
        Some(sig_x) => match dilithium3_signature(k, data + sig_x) {
            None => Err(Error::InitSignFailed),
            Some(sig_k) => Ok(HybridView { x: sig_x, k: sig_k }),
        },
    }
}

/// What `sign` makes of the Ed25519 signature that OpenSSL gave, or did
/// not give: the two signatures, where each has the length of its scheme,
/// followed by the data.
pub open spec fn hybrid_signed_data(ed25519: Option<Seq<u8>>, k: Seq<u8>, data: Seq<u8>)
    -> Result<Seq<u8>, Error> {
    match hybrid_signed(ed25519, k, data) {
        Err(e) => Err(e),
        Ok(sig) => if sig.x.len() != ED25519_SIGNATURE_LENGTH || sig.k.len()
            != DILITHIUM3_SIGNATURE_LENGTH {
            Err(Error::InitSignFailed)
        } else {
            Ok(sig.x + sig.k + data)
        },
    }
}

/// What a result that holds a hybrid signature holds.
pub open spec fn result_signature(res: Result<Ed25519DilithiumHybridSig, Error>) -> Result<
    HybridView,
    Error,
> {
    match res {
        Ok(sig) => Ok(sig@),
        Err(e) => Err(e),
    }
}

/// Whether `res` is an outcome of signing `data` with the key `key`:
/// where OpenSSL signs, its signature is the Ed25519 signature of the data,
/// and the result is what is made of it; where OpenSSL does not sign, the
/// result is `InitSignFailed`.
pub open spec fn is_signing_outcome(res: Result<HybridView, Error>, key: HybridView, data: Seq<u8>)
    -> bool {
    ||| res == hybrid_signed(Some(openssl_ed25519_signature(key.x, data)), key.k, data)
    ||| res == hybrid_signed(None, key.k, data)
}

/// Whether `res` is an outcome of `sign` on `data` with the key `key`.
pub open spec fn is_signed_data_outcome(
    res: Result<Seq<u8>, Error>,
    key: HybridView,
    data: Seq<u8>,
) -> bool {
    ||| res == hybrid_signed_data(Some(openssl_ed25519_signature(key.x, data)), key.k, data)
    ||| res == hybrid_signed_data(None, key.k, data)
}

/// Makes the hybrid signature of `data` of the Ed25519 signature that
/// OpenSSL gave, or did not give, and of the Dilithium3 key `k`.
///
/// Fails with `InitSignFailed` where there is no Ed25519 signature or `k`
/// has not the length of a Dilithium3 key.
pub fn hybrid_signature_from(ed25519: Option<Vec<u8>>, k: &[u8], data: &[u8]) -> (res: Result<
    Ed25519DilithiumHybridSig,
    Error,
>)
    ensures
        result_signature(res) == hybrid_signed(bytes_of(ed25519), k@, data@),
        res matches Ok(sig) ==> sig@.k.len() == DILITHIUM3_SIGNATURE_LENGTH,
{
    let sig_x = match ed25519 {
        Some(signature) => signature,
        None => { return Err(Error::InitSignFailed); },
    };
    let covered = joined(data, sig_x.as_slice());
    match dilithium3_sign(k, covered.as_slice()) {
        Some(sig_k) => Ok(Ed25519DilithiumHybridSig { x: sig_x, k: sig_k }),
        None => Err(Error::InitSignFailed),
    }
}

/// Makes signed data of the Ed25519 signature that OpenSSL gave, or did
/// not give, of the Dilithium3 key `k` and of `data`: the two signatures
/// and the data, one after the other.
///
/// Fails with `InitSignFailed` where `hybrid_signature_from` does, and
/// where a signature has not the length of its scheme, so that a verifier
/// could not split the result.
pub fn hybrid_signed_data_from(ed25519: Option<Vec<u8>>, k: &[u8], data: &[u8]) -> (res: Result<
    Vec<u8>,
    Error,
>)
    ensures
        result_bytes(res) == hybrid_signed_data(bytes_of(ed25519), k@, data@),
{
    let sig = match hybrid_signature_from(ed25519, k, data) {
        Ok(sig) => sig,
        Err(e) => { return Err(e); },
    };
    if sig.x.len() != ED25519_SIGNATURE_LENGTH || sig.k.len() != DILITHIUM3_SIGNATURE_LENGTH {
        return Err(Error::InitSignFailed);
    }
    let mut signed = sig.to_bytes();
    signed.extend_from_slice(data);
    assert(signed@ =~= sig@.x + sig@.k + data@);
    Ok(signed)
}

/// What verification makes of the two verdicts: no verdict of Dilithium3
/// is a failure, its rejection is the answer `false`, and where it accepts,
/// the verdict of Ed25519 decides, and none is a failure.
pub open spec fn hybrid_outcome(dilithium: Option<bool>, ed25519: Option<bool>) -> Result<
    bool,
    Error,
> {
    match dilithium {
        None => Err(Error::InitVerifyFailed),
        Some(false) => Ok(false),
        Some(true) => match ed25519 {
            Some(accepted) => Ok(accepted),
            None => Err(Error::InitVerifyFailed),
        },
    }
}

/// Makes the answer of a hybrid verification of the verdict of Dilithium3
/// and the verdict of Ed25519.
///
/// Fails with `InitVerifyFailed` where Dilithium3 gives no verdict, or
/// accepts and Ed25519 gives none.
pub fn hybrid_result(dilithium: Option<bool>, ed25519: Option<bool>) -> (res: Result<bool, Error>)
    ensures
        res == hybrid_outcome(dilithium, ed25519),
{
    match dilithium {
        None => Err(Error::InitVerifyFailed),
        Some(false) => Ok(false),
        Some(true) => match ed25519 {
            Some(accepted) => Ok(accepted),
            None => Err(Error::InitVerifyFailed),
        },
    }
}

/// Whether `res` is an outcome of verifying `signature` for `data` with
/// the key `key`: what is made of the verdict of Dilithium3, which is a
/// function of key, signature and data, and of the verdict of OpenSSL,
/// where OpenSSL gives one.
pub open spec fn is_verification_outcome(
    res: Result<bool, Error>,
    key: HybridView,
    signature: HybridView,
    data: Seq<u8>,
) -> bool {
    let dilithium = dilithium3_accepted(key.k, data + signature.x, signature.k);
    ||| res == hybrid_outcome(
        dilithium,
        Some(openssl_ed25519_verdict(key.x, data, signature.x)),
    )
    ||| res == hybrid_outcome(dilithium, None)
}

/// Whether `res` is the answer that the signature is not accepted for
/// `data`: the data and `false`.
pub open spec fn is_rejection_of(res: Result<(&[u8], bool), Error>, data: Seq<u8>) -> bool {
    match res {
        Ok((received, accepted)) => received@ == data && !accepted,
        Err(_) => false,
    }
}

/// The verdict of a result that holds data and a verdict.
pub open spec fn result_verdict(res: Result<(&[u8], bool), Error>) -> Result<bool, Error> {
    match res {
        Ok((_, accepted)) => Ok(accepted),
        Err(e) => Err(e),
    }
}

fn verify_internally(x: &[u8], k: &[u8], sig_x: &[u8], sig_k: &[u8], data: &[u8]) -> (res: Result<
    bool,
    Error,
>)
    ensures
        is_verification_outcome(
            res,
            HybridView { x: x@, k: k@ },
            HybridView { x: sig_x@, k: sig_k@ },
            data@,
        ),
{
    let covered = joined(data, sig_x);
    let dilithium = dilithium3_verify(k, covered.as_slice(), sig_k);
    let ed25519 = match dilithium {
        Some(true) => openssl_ed25519_verify(x, data, sig_x),
        _ => None,
    };
    hybrid_result(dilithium, ed25519)
}

impl Ed25519DilithiumHybridVerifyKey {
    /// The hybrid key that holds the Ed25519 key `x` and the Dilithium3
    /// key `k`.
    ///
    /// Fails with `InitVerifyFailed` where a half has not the length of
    /// its key.
    pub fn from_bytes_owned(x: Vec<u8>, k: Vec<u8>) -> (res: Result<Self, Error>)
        ensures
            match res {
                Ok(key) => key@.x == x@ && key@.k == k@ && x@.len() == ED25519_KEY_LENGTH
                    && k@.len() == DILITHIUM3_PUBLIC_KEY_LENGTH,
                Err(e) => e == Error::InitVerifyFailed && !(x@.len() == ED25519_KEY_LENGTH
                    && k@.len() == DILITHIUM3_PUBLIC_KEY_LENGTH),
            },
    {
        if x.len() != ED25519_KEY_LENGTH || k.len() != DILITHIUM3_PUBLIC_KEY_LENGTH {
            return Err(Error::InitVerifyFailed);
        }
        Ok(Self { x, k })
    }

    /// The two halves of this key: the Ed25519 key, then the Dilithium3
    /// key.
    pub fn get_raw_key(&self) -> (res: (&[u8], &[u8]))
        ensures
            res.0@ == self@.x,
            res.1@ == self@.k,
    {
        (self.x.as_slice(), self.k.as_slice())
    }

    /// The algorithm tag of this key.
    pub fn get_alg_str(&self) -> (alg: &'static str)
        ensures
            alg@ == ED25519_DILITHIUM_HYBRID_REC_OUTPUT@,
    {
        ED25519_DILITHIUM_HYBRID_REC_OUTPUT
    }

    /// Whether this key accepts the hybrid signature `sig` for `data`.
    ///
    /// A signature that this key does not accept is an answer, `false`, and
    /// no failure: where Dilithium3 rejects, the result is `Ok(false)`.
    /// Fails with `InitVerifyFailed` where Dilithium3 cannot take up its
    /// half of the key or of the signature, and where it accepts and
    /// OpenSSL gives no verdict. `hybrid_result` says what is made of the
    /// two verdicts.
    pub fn verify_only(&self, sig: &Ed25519DilithiumHybridSig, data: &[u8]) -> (res: Result<
        bool,
        Error,
    >)
        ensures
            is_verification_outcome(res, self@, sig@, data@),
            dilithium3_accepted(self@.k, data@ + sig@.x, sig@.k) is None ==> res == Err::<
                bool,
                Error,
            >(Error::InitVerifyFailed),
            dilithium3_accepted(self@.k, data@ + sig@.x, sig@.k) == Some(false) ==> res == Ok::<
                bool,
                Error,
            >(false),
            res matches Ok(accepted) ==> accepted == hybrid_verdict(self@, sig@, data@),
            res matches Err(e) ==> e == Error::InitVerifyFailed,
    {
        verify_internally(
            self.x.as_slice(),
            self.k.as_slice(),
            sig.x.as_slice(),
            sig.k.as_slice(),
            data,
        )
    }

    /// Splits signed data and says whether this key accepts the hybrid
    /// signature for the data.
    ///
    /// A signature that this key does not accept is an answer, `false`, and
    /// no failure: where Dilithium3 rejects, the result is the data and
    /// `false`. Fails with `DataToSignTooShort` exactly where
    /// `data_with_sig` does not hold more than a hybrid signature, and with
    /// `InitVerifyFailed` where Dilithium3 cannot take up its half of the
    /// key, and where it accepts and OpenSSL gives no verdict.
    /// `hybrid_result` says what is made of the two verdicts.
    pub fn verify<'a>(&self, data_with_sig: &'a [u8]) -> (res: Result<(&'a [u8], bool), Error>)
        ensures
            data_with_sig@.len() <= SIG_LENGTH <==> res == Err::<(&[u8], bool), Error>(
                Error::DataToSignTooShort,
            ),
            data_with_sig@.len() > SIG_LENGTH ==> {
                let signature = hybrid_signature_of(
                    data_with_sig@.subrange(0, SIG_LENGTH as int),
                );
                let data = data_with_sig@.subrange(
                    SIG_LENGTH as int,
                    data_with_sig@.len() as int,
                );
                let dilithium = dilithium3_accepted(self@.k, data + signature.x, signature.k);
                &&& is_verification_outcome(result_verdict(res), self@, signature, data)
                &&& dilithium is None ==> res == Err::<(&[u8], bool), Error>(
                    Error::InitVerifyFailed,
                )
                &&& dilithium == Some(false) ==> is_rejection_of(res, data)
            },
            res matches Ok((data, accepted)) ==> {
                &&& data@ == data_with_sig@.subrange(
                    SIG_LENGTH as int,
                    data_with_sig@.len() as int,
                )
                &&& accepted == hybrid_verdict(
                    self@,
                    hybrid_signature_of(data_with_sig@.subrange(0, SIG_LENGTH as int)),
                    data@,
                )
            },
            res matches Err(e) ==> e == Error::DataToSignTooShort || e == Error::InitVerifyFailed,
    {
        let (sig, data) = match split_sig_and_data(data_with_sig) {
            Ok(parts) => parts,
            Err(e) => { return Err(e); },
        };
        let (sig_x, sig_k) = match split_at(sig, ED25519_SIGNATURE_LENGTH) {
            Ok(parts) => parts,
            Err(e) => { return Err(Error::InitVerifyFailed); },
        };
        match verify_internally(self.x.as_slice(), self.k.as_slice(), sig_x, sig_k, data) {
            Ok(accepted) => Ok((data, accepted)),
            Err(e) => Err(e),
        }
    }
}

impl Ed25519DilithiumHybridSignK {
    /// The hybrid key that holds the Ed25519 key `x` and the Dilithium3
    /// key `k`.
    ///
    /// Fails with `SignKeyCreateFailed` where a half has not the length
    /// of its key.
    pub fn from_bytes_owned(x: Vec<u8>, k: Vec<u8>) -> (res: Result<Self, Error>)
        ensures
            match res {
                Ok(key) => key@.x == x@ && key@.k == k@ && x@.len() == ED25519_KEY_LENGTH
                    && k@.len() == DILITHIUM3_SECRET_KEY_LENGTH,
                Err(e) => e == Error::SignKeyCreateFailed && !(x@.len() == ED25519_KEY_LENGTH
                    && k@.len() == DILITHIUM3_SECRET_KEY_LENGTH),
            },
    {
        if x.len() != ED25519_KEY_LENGTH || k.len() != DILITHIUM3_SECRET_KEY_LENGTH {
            return Err(Error::SignKeyCreateFailed);
        }
        Ok(Self { x, k })
    }

    /// The two halves of this key: the Ed25519 key, then the Dilithium3
    /// key.
    pub fn get_raw_key(&self) -> (res: (&[u8], &[u8]))
        ensures
            res.0@ == self@.x,
            res.1@ == self@.k,
    {
        (self.x.as_slice(), self.k.as_slice())
    }

    /// The algorithm tag of this key.
    pub fn get_alg_str(&self) -> (alg: &'static str)
        ensures
            alg@ == ED25519_DILITHIUM_HYBRID_REC_OUTPUT@,
    {
        ED25519_DILITHIUM_HYBRID_REC_OUTPUT
    }

    /// The hybrid signature of `data` under this key.
    ///
    /// Fails with `InitSignFailed` where OpenSSL does not sign, and where
    /// the Dilithium3 half has not the length of a key;
    /// `hybrid_signature_from` says what is made of what OpenSSL gave. Every
    /// verification key that belongs to this key accepts the result for
    /// `data`.
    pub fn sign_only(&self, data: &[u8]) -> (res: Result<Ed25519DilithiumHybridSig, Error>)
        ensures
            is_signing_outcome(result_signature(res), self@, data@),
            res matches Ok(sig) ==> {
                &&& sig@.x == openssl_ed25519_signature(self@.x, data@)
                &&& dilithium3_signature(self@.k, data@ + sig@.x) == Some(sig@.k)
                &&& forall|verify: HybridView| #[trigger]
                    is_hybrid_key_pair(self@, verify) ==> hybrid_verdict(verify, sig@, data@)
            },
            res matches Err(e) ==> e == Error::InitSignFailed,
    {
        let ed25519 = openssl_ed25519_sign(self.x.as_slice(), data);
        let res = hybrid_signature_from(ed25519, self.k.as_slice(), data);
        proof {
            if let Ok(sig) = &res {
                assert forall|verify: HybridView| #[trigger]
                    is_hybrid_key_pair(self@, verify) implies hybrid_verdict(
                    verify,
                    sig@,
                    data@,
                ) by {
                    assert(dilithium3_signs_for(verify.k, self@.k, data@ + sig@.x));
                }
            }
        }
        res
    }

    /// Signs `data`: the result is the Ed25519 signature, the Dilithium3
    /// signature and `data`, one after the other.
    ///
    /// Fails with `InitSignFailed` where OpenSSL does not sign, where the
    /// Dilithium3 half has not the length of a key, and where a signature
    /// has not the length of its scheme; `hybrid_signed_data_from` says what
    /// is made of what OpenSSL gave. Every verification key that belongs to
    /// this key accepts the two signatures that the result starts with for
    /// `data`.
    pub fn sign(&self, data: &[u8]) -> (res: Result<Vec<u8>, Error>)
        ensures
            is_signed_data_outcome(result_bytes(res), self@, data@),
            res matches Ok(signed) ==> {
                &&& signed@.len() == SIG_LENGTH + data@.len()
                &&& signed@.subrange(SIG_LENGTH as int, signed@.len() as int) == data@
                &&& forall|verify: HybridView| #[trigger]
                    is_hybrid_key_pair(self@, verify) ==> hybrid_verdict(
                        verify,
                        hybrid_signature_of(signed@.subrange(0, SIG_LENGTH as int)),
                        data@,
                    )
            },
            res matches Err(e) ==> e == Error::InitSignFailed,
    {
        let ed25519 = openssl_ed25519_sign(self.x.as_slice(), data);
        let res = hybrid_signed_data_from(ed25519, self.k.as_slice(), data);
        proof {
            if let Ok(signed) = &res {
                let sig_x = openssl_ed25519_signature(self@.x, data@);
                let sig_k = dilithium3_signature(self@.k, data@ + sig_x).unwrap();
                let n = SIG_LENGTH as int;
                let m = ED25519_SIGNATURE_LENGTH as int;
                let head = signed@.subrange(0, n);
                assert(head =~= sig_x + sig_k);
                assert(head.subrange(0, m) =~= sig_x);
                assert(head.subrange(m, head.len() as int) =~= sig_k);
                assert(signed@.subrange(n, signed@.len() as int) =~= data@);
                assert forall|verify: HybridView| #[trigger]
                    is_hybrid_key_pair(self@, verify) implies hybrid_verdict(
                    verify,
                    hybrid_signature_of(head),
                    data@,
                ) by {
                    assert(dilithium3_signs_for(verify.k, self@.k, data@ + sig_x));
                }
            }
        }
        res
    }

    /// Wraps this key under the symmetric key `master_key`: both halves,
    /// the Ed25519 key first.
    ///
    /// Fails as symmetric encryption does. Decrypting the result under
    /// `master_key` gives the two halves back.
    pub fn encrypt_by_master_key(&self, master_key: &SymmetricKey) -> (res: Result<Vec<u8>, Error>)
        ensures
            res matches Ok(wrapped) ==> sym_decrypted(
                master_key.bytes(),
                Seq::<u8>::empty(),
                wrapped@,
            ) == Ok::<Seq<u8>, Error>(self@.x + self@.k),
            res matches Err(e) ==> e == Error::EncryptionFailedRng || e == Error::EncryptionFailed,
    {
        let key = joined(self.x.as_slice(), self.k.as_slice());
        master_key.encrypt(key.as_slice())
    }

    /// Generates a fresh hybrid key pair.
    ///
    /// Fails with `KeyCreationFailed` where the system gives no random
    /// bytes or OpenSSL does not take them up as a key. The two keys of
    /// the result belong together.
    pub fn generate_key_pair() -> (res: Result<
        (Ed25519DilithiumHybridSignK, Ed25519DilithiumHybridVerifyKey),
        Error,
    >)
        ensures
            res matches Ok((sign, verify)) ==> is_hybrid_key_pair(sign@, verify@),
            res matches Err(e) ==> e == Error::KeyCreationFailed,
    {
        let sign_x = match random_bytes(ED25519_KEY_LENGTH) {
            Some(bytes) => bytes,
            None => { return Err(Error::KeyCreationFailed); },
        };
        let verify_x = match openssl_ed25519_public_key(sign_x.as_slice()) {
            Some(bytes) => bytes,
            None => { return Err(Error::KeyCreationFailed); },
        };
        let (verify_k, sign_k) = dilithium3_keypair();
        Ok(
            (
                Ed25519DilithiumHybridSignK { x: sign_x, k: sign_k },
                Ed25519DilithiumHybridVerifyKey { x: verify_x, k: verify_k },
            ),
        )
    }
}

/// What is hashed of one user for a safety number: both halves of the
/// verification key, then the identifier of the user.
pub open spec fn safety_number_part(verify_key: HybridView, user_id: Seq<char>) -> Seq<u8> {
    verify_key.x + verify_key.k + vstd::utf8::encode_utf8(user_id)
}

/// What is hashed for a safety number: the part of the first user and,
/// where a second user is given with its key and its identifier, the part
/// of the second.
pub open spec fn safety_number_input(
    verify_key_1: HybridView,
    user_id_1: Seq<char>,
    second: Option<(HybridView, Seq<char>)>,
) -> Seq<u8> {
    match second {
        Some((verify_key_2, user_id_2)) => safety_number_part(verify_key_1, user_id_1)
            + safety_number_part(verify_key_2, user_id_2),
        None => safety_number_part(verify_key_1, user_id_1),
    }
}

/// The second user of a safety number, where both its key and its
/// identifier are given.
pub open spec fn second_user(
    verify_key_2: Option<&Ed25519DilithiumHybridVerifyKey>,
    user_id_2: Option<&str>,
) -> Option<(HybridView, Seq<char>)> {
    match (verify_key_2, user_id_2) {
        (Some(key), Some(id)) => Some((key@, id@)),
        _ => None,
    }
}

/// The safety number of one user, or of two: a number that two users
/// compare to make sure that each holds the verification key of the other.
/// It is the SHA-256 digest of the keys and identifiers, in the order
/// given, so that the two users must agree on who comes first.
pub fn safety_number(
    verify_key_1: &Ed25519DilithiumHybridVerifyKey,
    user_id_1: &str,
    verify_key_2: Option<&Ed25519DilithiumHybridVerifyKey>,
    user_id_2: Option<&str>,
) -> (number: Vec<u8>)
    ensures
        number@ == sha256_digest(
            safety_number_input(verify_key_1@, user_id_1@, second_user(verify_key_2, user_id_2)),
        ),
        number@.len() == 32,
{
    let mut input = joined(verify_key_1.x.as_slice(), verify_key_1.k.as_slice());
    input.extend_from_slice(user_id_1.as_bytes());
    assert(input@ =~= safety_number_part(verify_key_1@, user_id_1@));
    match (verify_key_2, user_id_2) {
        (Some(key), Some(id)) => {
            input.extend_from_slice(key.x.as_slice());
            input.extend_from_slice(key.k.as_slice());
            input.extend_from_slice(id.as_bytes());
            assert(input@ =~= safety_number_part(verify_key_1@, user_id_1@)
                + safety_number_part(key@, id@));
        },
        _ => {},
    }
    sha256(input.as_slice())
}

} // verus!
