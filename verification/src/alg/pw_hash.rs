//! Keys from a password: Argon2id.
//!
//! A password and a salt give 64 bytes. The first half encrypts the
//! master key of a user or device and never leaves the client. The second
//! half authenticates to the server, which stores only a hash of it. The
//! salt is a hash of a fixed text and of a random value that the client
//! drew at registration, so that client and server compute the same salt.

use vstd::prelude::*;
use vstd::slice::*;
use vstd::string::*;

use crate::alg::sym::{
    sym_encrypted, sym_key_unwrapped, SymmetricKey, AES_GCM_OUTPUT, SYM_OVERHEAD,
};
use crate::bytes::{same_text, to_array};
use crate::error::Error;
use crate::primitives::{
    argon2id, argon2id_derived, random_bytes, sha256, sha256_digest, AES_KEY_LENGTH,
};

verus! {

/// The algorithm tag of Argon2id with SHA-256 for the salt.
pub const ARGON_2_OUTPUT: &'static str = "ARGON-2-SHA256";

/// The fixed text that every salt starts with.
pub const SALT_STRING: &'static str = "sendclose";

/// The length that the text of a salt is padded to.
pub const SALT_STRING_MAX_LENGTH: usize = 200;

/// The byte that the text of a salt is padded with: the letter `P`.
pub const SALT_PADDING: u8 = 80;

/// Length of the random value that a client draws at registration.
pub const RANDOM_VALUE_LENGTH: usize = 16;

/// Length of what is derived from a password.
pub const DERIVED_KEY_LENGTH: usize = 64;

/// Length of the hash of the authentication key that the server stores.
pub const HASHED_AUTH_KEY_LENGTH: usize = 16;

/// The random value that a client drew at registration.
#[derive(Debug, Clone, Copy, PartialEq, Eq)]
pub enum ClientRandomValue {
    Argon2([u8; 16]),
}

/// The key, derived from the password, that encrypts the master key.
#[derive(Debug, Clone, Copy, PartialEq, Eq)]
pub enum DeriveMasterKeyForAuth {
    Argon2([u8; 32]),
}

/// The key, derived from the password, that authenticates to the server.
#[derive(Debug, Clone, Copy, PartialEq, Eq)]
pub enum DeriveAuthKeyForAuth {
    Argon2([u8; 32]),
}

/// The hash of the authentication key, which the server stores.
#[derive(Debug, Clone, Copy, PartialEq, Eq)]
pub enum HashedAuthenticationKey {
    Argon2([u8; 16]),
}

/// What registration derives from a password for a master key.
#[derive(Debug)]
pub struct DeriveKeyOutput {
    pub client_random_value: ClientRandomValue,
    pub hashed_authentication_key: HashedAuthenticationKey,
    pub encrypted_master_key: Vec<u8>,
    pub master_key_alg: &'static str,
    pub alg: &'static str,
}

/// The padding of a salt text of `length` bytes.
pub open spec fn salt_padding(length: nat) -> Seq<u8> {
    if length < SALT_STRING_MAX_LENGTH {
        Seq::new((SALT_STRING_MAX_LENGTH - length) as nat, |i: int| SALT_PADDING)
    } else {
        Seq::<u8>::empty()
    }
}

/// What is hashed to a salt: the fixed text, the addition, the padding and
/// the client's random value.
pub open spec fn salt_input(client_random_value: Seq<u8>, addition: Seq<u8>) -> Seq<u8> {
    let text = SALT_STRING.spec_bytes() + addition;
    text + salt_padding(text.len()) + client_random_value
}

/// The salt for a client's random value.
pub open spec fn salt_of(client_random_value: Seq<u8>, addition: Seq<u8>) -> Seq<u8> {
    sha256_digest(salt_input(client_random_value, addition))
}

/// The two keys that a password and a salt give: the key for the master
/// key, then the key for authentication.
pub open spec fn password_keys(password: Seq<u8>, salt: Seq<u8>) -> Result<
    (Seq<u8>, Seq<u8>),
    Error,
> {
    match argon2id_derived(password, salt, DERIVED_KEY_LENGTH as nat) {
        Some(derived) => if derived.len() == DERIVED_KEY_LENGTH {
            Ok(
                (
                    derived.subrange(0, AES_KEY_LENGTH as int),
                    derived.subrange(AES_KEY_LENGTH as int, DERIVED_KEY_LENGTH as int),
                ),
            )
        } else {
            Err(Error::PwSplitFailedLeft)
        },
        None => Err(Error::PwHashFailed),
    }
}

/// The hash of an authentication key that the server stores.
pub open spec fn hashed_auth_key(auth_key: Seq<u8>) -> Seq<u8> {
    sha256_digest(auth_key).subrange(0, HASHED_AUTH_KEY_LENGTH as int)
}

/// The master key that a login recovers from a password, a salt and the
/// encrypted master key.
pub open spec fn master_key_recovered(
    password: Seq<u8>,
    salt: Seq<u8>,
    encrypted_master_key: Seq<u8>,
    alg: Seq<char>,
) -> Result<Seq<u8>, Error> {
    match password_keys(password, salt) {
        Ok((encryption_key, _)) => sym_key_unwrapped(encryption_key, encrypted_master_key, alg),
        Err(e) => Err(e),
    }
}

/// Whether `e` is one of the failures of making and wrapping keys: no
/// random bytes, a cipher or the key derivation that refuses its input, a
/// public key that cannot be written.
pub open spec fn is_key_setup_failure(e: Error) -> bool {
    e == Error::KeyCreationFailed || e == Error::EncryptionFailedRng || e
        == Error::EncryptionFailed || e == Error::PwHashFailed || e == Error::PwSplitFailedLeft
        || e == Error::PwSplitFailedRight || e == Error::ExportingPublicKeyFailed
}

/// The raw material of a result that holds the two keys of a password.
pub open spec fn result_password_keys(
    res: Result<(DeriveMasterKeyForAuth, DeriveAuthKeyForAuth), Error>,
) -> Result<(Seq<u8>, Seq<u8>), Error> {
    match res {
        Ok((encryption_key, auth_key)) => Ok((encryption_key.bytes(), auth_key.bytes())),
        Err(e) => Err(e),
    }
}

impl ClientRandomValue {
    /// The random bytes.
    pub open spec fn bytes(self) -> Seq<u8> {
        match self {
            ClientRandomValue::Argon2(value) => value@,
        }
    }

    /// The random bytes.
    pub fn as_bytes(&self) -> (bytes: &[u8])
        ensures
            bytes@ == self.bytes(),
            bytes@.len() == RANDOM_VALUE_LENGTH,
    {
        match self {
            ClientRandomValue::Argon2(value) => value.as_slice(),
        }
    }

    /// The random value with the bytes `bytes` for the algorithm
    /// `alg_str`.
    ///
    /// Fails with `AlgNotFound` on an unknown algorithm tag and with
    /// `DecodeSaltFailed` where `bytes` has not the length of a random value.
    pub fn from_bytes(bytes: &[u8], alg_str: &str) -> (res: Result<ClientRandomValue, Error>)
        ensures
            match res {
                Ok(value) => alg_str@ == ARGON_2_OUTPUT@ && value.bytes() == bytes@,
                Err(e) => if alg_str@ != ARGON_2_OUTPUT@ {
                    e == Error::AlgNotFound
                } else {
                    e == Error::DecodeSaltFailed && bytes@.len() != RANDOM_VALUE_LENGTH
                },
            },
    {
        if !same_text(alg_str, ARGON_2_OUTPUT) {
            return Err(Error::AlgNotFound);
        }
        match to_array::<16>(bytes) {
            Some(value) => Ok(ClientRandomValue::Argon2(value)),
            None => Err(Error::DecodeSaltFailed),
        }
    }

    /// The salt for this random value: the server computes it at login
    /// from the random value that it stored at registration.
    pub fn generate_salt(&self, add_str: &str) -> (salt: Vec<u8>)
        ensures
            salt@ == salt_of(self.bytes(), add_str.spec_bytes()),
    {
        let mut input = slice_to_vec(SALT_STRING.as_bytes());
        input.extend_from_slice(add_str.as_bytes());
        let ghost text = input@;
        assert(text =~= SALT_STRING.spec_bytes() + add_str.spec_bytes());
        while input.len() < SALT_STRING_MAX_LENGTH
            invariant
                text.len() <= input@.len(),
                input@.len() <= SALT_STRING_MAX_LENGTH || input@ == text,
                input@.subrange(0, text.len() as int) == text,
                forall|i: int| text.len() <= i < input@.len() ==> input@[i] == SALT_PADDING,
            decreases SALT_STRING_MAX_LENGTH - input@.len(),
        {
            let ghost before = input@;
            input.push(SALT_PADDING);
            assert(input@.subrange(0, text.len() as int) =~= before.subrange(
                0,
                text.len() as int,
            ));
        }
        assert(input@ =~= text + salt_padding(text.len()));
        input.extend_from_slice(self.as_bytes());
        assert(input@ =~= salt_input(self.bytes(), add_str.spec_bytes()));
        sha256(input.as_slice())
    }
}

impl DeriveMasterKeyForAuth {
    /// The raw key material.
    pub open spec fn bytes(self) -> Seq<u8> {
        match self {
            DeriveMasterKeyForAuth::Argon2(key) => key@,
        }
    }

    /// The raw key material.
    pub fn as_bytes(&self) -> (bytes: &[u8])
        ensures
            bytes@ == self.bytes(),
            bytes@.len() == AES_KEY_LENGTH,
    {
        match self {
            DeriveMasterKeyForAuth::Argon2(key) => key.as_slice(),
        }
    }

    /// This key as the symmetric key that it is used as.
    pub fn to_sym_key(&self) -> (key: SymmetricKey)
        ensures
            key.bytes() == self.bytes(),
    {
        match self {
            DeriveMasterKeyForAuth::Argon2(key) => SymmetricKey::Aes(*key),
        }
    }

    /// Decrypts the master key of the algorithm `alg_str` that was
    /// encrypted under this key.
    ///
    /// Fails as symmetric decryption does: a wrong password ends in
    /// `DecryptionFailed`.
    pub fn get_master_key(&self, encrypted_master_key: &[u8], alg_str: &str) -> (res: Result<
        SymmetricKey,
        Error,
    >)
        ensures
            SymmetricKey::result_key_bytes(res) == sym_key_unwrapped(
                self.bytes(),
                encrypted_master_key@,
                alg_str@,
            ),
    {
        let key = self.to_sym_key();
        SymmetricKey::decrypt_key_by_sym_key(&key, encrypted_master_key, alg_str)
    }
}

impl DeriveAuthKeyForAuth {
    /// The raw key material.
    pub open spec fn bytes(self) -> Seq<u8> {
        match self {
            DeriveAuthKeyForAuth::Argon2(key) => key@,
        }
    }

    /// The raw key material.
    pub fn as_bytes(&self) -> (bytes: &[u8])
        ensures
            bytes@ == self.bytes(),
            bytes@.len() == AES_KEY_LENGTH,
    {
        match self {
            DeriveAuthKeyForAuth::Argon2(key) => key.as_slice(),
        }
    }

    /// The hash of this key that the server stores.
    pub fn hash(&self) -> (hashed: HashedAuthenticationKey)
        ensures
            hashed.bytes() == hashed_auth_key(self.bytes()),
    {
        let digest = sha256(self.as_bytes());
        let head = slice_subrange(digest.as_slice(), 0, HASHED_AUTH_KEY_LENGTH);
        let mut hashed = [0u8;16];
        let mut i: usize = 0;
        while i < HASHED_AUTH_KEY_LENGTH
            invariant
                i <= HASHED_AUTH_KEY_LENGTH,
                head@.len() == HASHED_AUTH_KEY_LENGTH,
                forall|j: int| 0 <= j < i ==> hashed@[j] == head@[j],
            decreases HASHED_AUTH_KEY_LENGTH - i,
        {
            hashed[i] = head[i];
            i += 1;
        }
        assert(hashed@ =~= head@);
        HashedAuthenticationKey::Argon2(hashed)
    }
}

impl HashedAuthenticationKey {
    /// The bytes of the hash.
    pub open spec fn bytes(self) -> Seq<u8> {
        match self {
            HashedAuthenticationKey::Argon2(hash) => hash@,
        }
    }

    /// The bytes of the hash.
    pub fn as_bytes(&self) -> (bytes: &[u8])
        ensures
            bytes@ == self.bytes(),
            bytes@.len() == HASHED_AUTH_KEY_LENGTH,
    {
        match self {
            HashedAuthenticationKey::Argon2(hash) => hash.as_slice(),
        }
    }
}

/// Derives the two keys of a password: the key for the master key, then
/// the key for authentication.
///
/// Fails with `PwHashFailed` where Argon2 refuses the input, which it
/// does for a salt of less than eight bytes.
pub fn derive_keys_for_auth(password: &[u8], salt: &[u8]) -> (res: Result<
    (DeriveMasterKeyForAuth, DeriveAuthKeyForAuth),
    Error,
>)
    ensures
        result_password_keys(res) == password_keys(password@, salt@),
{
    let derived = match argon2id(password, salt, DERIVED_KEY_LENGTH) {
        Some(derived) => derived,
        None => { return Err(Error::PwHashFailed); },
    };
    let left = slice_subrange(derived.as_slice(), 0, AES_KEY_LENGTH);
    let right = slice_subrange(derived.as_slice(), AES_KEY_LENGTH, DERIVED_KEY_LENGTH);
    match (to_array::<32>(left), to_array::<32>(right)) {
        (Some(encryption_key), Some(auth_key)) => Ok(
            (
                DeriveMasterKeyForAuth::Argon2(encryption_key),
                DeriveAuthKeyForAuth::Argon2(auth_key),
            ),
        ),
        (None, _) => Err(Error::PwSplitFailedLeft),
        (_, None) => Err(Error::PwSplitFailedRight),
    }
}

/// Number of random bytes that deriving keys for a master key takes: the
/// client's random value, then a nonce for encrypting the master key.
pub const DERIVE_ENTROPY_LENGTH: usize = 28;

/// What is derived from a password for a master key.
pub struct Derived {
    pub client_random_value: Seq<u8>,
    pub hashed_authentication_key: Seq<u8>,
    pub encrypted_master_key: Seq<u8>,
}

/// What `derived_keys_with_entropy` makes of its arguments.
///
/// The first random bytes are the client's random value, which gives the
/// salt. Password and salt give the two keys. The server gets the hash of
/// the second, and the master key, encrypted under the first with the rest
/// of the random bytes as nonce.
pub open spec fn derived(password: Seq<u8>, master_key: Seq<u8>, entropy: Seq<u8>) -> Result<
    Derived,
    Error,
> {
    if entropy.len() != DERIVE_ENTROPY_LENGTH {
        Err(Error::KeyCreationFailed)
    } else {
        let client_random_value = entropy.subrange(0, RANDOM_VALUE_LENGTH as int);
        match password_keys(password, salt_of(client_random_value, Seq::<u8>::empty())) {
            Err(e) => Err(e),
            Ok((encryption_key, auth_key)) => match sym_encrypted(
                encryption_key,
                entropy.subrange(RANDOM_VALUE_LENGTH as int, DERIVE_ENTROPY_LENGTH as int),
                Seq::<u8>::empty(),
                master_key,
            ) {
                Err(e) => Err(e),
                Ok(encrypted_master_key) => Ok(
                    Derived {
                        client_random_value,
                        hashed_authentication_key: hashed_auth_key(auth_key),
                        encrypted_master_key,
                    },
                ),
            },
        }
    }
}

impl DeriveKeyOutput {
    /// What this output holds.
    pub open spec fn derived(self) -> Derived {
        Derived {
            client_random_value: self.client_random_value.bytes(),
            hashed_authentication_key: self.hashed_authentication_key.bytes(),
            encrypted_master_key: self.encrypted_master_key@,
        }
    }
}

/// Whether a login with the password `password` and the salt of the
/// client's random value reaches the master key `master_key` from what
/// was derived, and authenticates against the hash.
pub open spec fn derived_opens(password: Seq<u8>, derived: Derived, master_key: Seq<u8>) -> bool {
    let salt = salt_of(derived.client_random_value, Seq::<u8>::empty());
    &&& derived.client_random_value.len() == RANDOM_VALUE_LENGTH
    &&& password_keys(password, salt) matches Ok((_, auth_key))
    &&& derived.hashed_authentication_key == hashed_auth_key(auth_key)
    &&& master_key_recovered(password, salt, derived.encrypted_master_key, AES_GCM_OUTPUT@) == Ok::<
        Seq<u8>,
        Error,
    >(master_key)
}

/// Derives the keys of `password` with the random bytes `entropy` and
/// encrypts `master_key` under the first of them.
///
/// The result is a function of the arguments. Fails with
/// `KeyCreationFailed` where `entropy` has not the 28 bytes that this
/// takes, as `derive_keys_for_auth` does, and with `EncryptionFailed`
/// where the cipher refuses the master key. A login with the same password
/// and the salt of the client's random value recovers the master key, and
/// its authentication key hashes to the hash given here.
pub fn derived_keys_with_entropy(
    password: &[u8],
    master_key: &SymmetricKey,
    entropy: &[u8],
) -> (res: Result<DeriveKeyOutput, Error>)
    ensures
        match derived(password@, master_key.bytes(), entropy@) {
            Ok(derived) => res matches Ok(out) && out.derived() == derived && out.alg@
                == ARGON_2_OUTPUT@ && out.master_key_alg@ == master_key.alg(),
            Err(e) => res == Err::<DeriveKeyOutput, Error>(e),
        },
        res matches Ok(out) ==> derived_opens(password@, out.derived(), master_key.bytes())
            && out.encrypted_master_key@.len() == AES_KEY_LENGTH + SYM_OVERHEAD,
        res matches Err(e) ==> is_key_setup_failure(e),
{
    if entropy.len() != DERIVE_ENTROPY_LENGTH {
        return Err(Error::KeyCreationFailed);
    }
    let client_random_value = match to_array::<16>(
        slice_subrange(entropy, 0, RANDOM_VALUE_LENGTH),
    ) {
        Some(value) => ClientRandomValue::Argon2(value),
        None => { return Err(Error::KeyCreationFailed); },
    };
    let salt = client_random_value.generate_salt("");
    proof {
        reveal_strlit("");
        assert("".spec_bytes() =~= Seq::<u8>::empty());
    }
    let (encryption_key, auth_key) = match derive_keys_for_auth(password, salt.as_slice()) {
        Ok(keys) => keys,
        Err(e) => { return Err(e); },
    };
    let hashed_authentication_key = auth_key.hash();
    let aad: [u8; 0] = [];
    assert(aad@ =~= Seq::<u8>::empty());
    let encrypted_master_key = match encryption_key.to_sym_key().encrypt_with_nonce(
        slice_subrange(entropy, RANDOM_VALUE_LENGTH, DERIVE_ENTROPY_LENGTH),
        aad.as_slice(),
        master_key.as_bytes(),
    ) {
        Ok(encrypted) => encrypted,
        Err(e) => { return Err(e); },
    };
    Ok(
        DeriveKeyOutput {
            client_random_value,
            hashed_authentication_key,
            encrypted_master_key,
            master_key_alg: master_key.get_alg_str(),
            alg: ARGON_2_OUTPUT,
        },
    )
}

/// Derives the keys of `password` for a fresh random value and encrypts
/// `master_key` under the first of them.
///
/// Fails with `KeyCreationFailed` where the system gives no random
/// bytes, and as `derived_keys_with_entropy` does, which says what is made
/// of them. A login with the same password and the salt of the random
/// value in the result recovers the master key.
pub fn derived_keys_from_password(password: &[u8], master_key: &SymmetricKey) -> (res: Result<
    DeriveKeyOutput,
    Error,
>)
    ensures
        res matches Ok(out) ==> out.alg@ == ARGON_2_OUTPUT@ && out.master_key_alg@
            == master_key.alg() && derived_opens(password@, out.derived(), master_key.bytes()),
        res matches Err(e) ==> is_key_setup_failure(e),
{
    match random_bytes(DERIVE_ENTROPY_LENGTH) {
        Some(entropy) => derived_keys_with_entropy(password, master_key, entropy.as_slice()),
        None => Err(Error::KeyCreationFailed),
    }
}

} // verus!
