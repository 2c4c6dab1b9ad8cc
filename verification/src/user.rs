//! The keys of a user or device: registration, login and password change.
//!
//! A user has a key pair for encryption and a key pair for signing. Both
//! private halves are wrapped under a master key, and the master key is
//! encrypted under a key that is derived from the password. The server
//! stores all of this and learns none of it: what authenticates a login
//! is the other half of what the password gives.

use vstd::prelude::*;
use vstd::slice::*;
use vstd::string::*;

use crate::alg::asym::{is_key_pair, secret_key_unwrapped, SecretKey, ECIES_OUTPUT};
use crate::alg::pw_hash::{
    derive_keys_for_auth, derived, derived_keys_with_entropy, derived_opens, hashed_auth_key,
    is_key_setup_failure, password_keys, salt_of, DeriveAuthKeyForAuth, DeriveKeyOutput,
    DeriveMasterKeyForAuth, Derived, ARGON_2_OUTPUT, DERIVE_ENTROPY_LENGTH, RANDOM_VALUE_LENGTH,
};
use crate::alg::sign::{is_sign_key_pair, sign_key_unwrapped, SignKey, ED25519_OUTPUT};
use crate::alg::sym::{sym_encrypted, sym_key_unwrapped, SymmetricKey, AES_GCM_OUTPUT};
use crate::bytes::{same_text, to_array};
use crate::encoding::{
    base64_bytes, base64_decode, base64_encode, base64_text, json_lookup, json_quote,
    json_quoted, json_value_at, JsonNode, JsonNodeView,
};
use crate::error::{Error, SdkError};
use crate::group::wrapped_key;
use crate::primitives::{
    bytes_of, ed25519_public, random_bytes, x25519_public, AES_KEY_LENGTH,
};
use crate::server::{handle_server_response, server_response, ServerOutput};
use crate::util::{
    export_raw_public_key_to_pem, export_raw_verify_key_to_pem,
    import_public_key_from_pem_with_alg, import_verify_key_from_pem_with_alg, key_to_pem,
    public_key_from_pem, verify_key_from_pem, KeyView, PrivateKeyFormatInt, PublicKeyFormatInt,
    SignKeyFormatInt, UserPublicKeyData, UserVerifyKeyData, VerifyKeyFormatInt,
};

verus! {

/// Length of the random bytes behind a generated identifier.
pub const GENERATED_IDENTIFIER_LENGTH: usize = 20;

/// Length of the random bytes behind a generated password.
pub const GENERATED_PASSWORD_LENGTH: usize = 40;

/// The master key of a user as the server stores it.
#[derive(Debug, Clone, PartialEq, Eq)]
pub struct MasterKey {
    pub master_key_alg: String,
    pub encrypted_master_key: String,
    pub encrypted_master_key_alg: String,
}

/// What registration derives and wraps for the server to store.
#[derive(Debug, Clone, PartialEq, Eq)]
pub struct KeyDerivedData {
    pub derived_alg: String,
    pub client_random_value: String,
    pub hashed_authentication_key: String,
    pub public_key: String,
    pub verify_key: String,
    pub keypair_encrypt_alg: String,
    pub keypair_sign_alg: String,
    pub encrypted_private_key: String,
    pub encrypted_sign_key: String,
}

/// What a client sends to register a user or a device.
#[derive(Debug, Clone, PartialEq, Eq)]
pub struct RegisterData {
    pub master_key: MasterKey,
    pub derived: KeyDerivedData,
    pub user_identifier: String,
}

/// What a client sends to ask whether an identifier is free.
#[derive(Debug, Clone, PartialEq, Eq)]
pub struct UserIdentifierAvailableServerInput {
    pub user_identifier: String,
}

/// What the server answers about an identifier.
#[derive(Debug, Clone, PartialEq, Eq)]
pub struct UserIdentifierAvailableServerOutput {
    pub user_identifier: String,
    pub available: bool,
}

/// What the server answers to a registration.
#[derive(Debug, Clone, PartialEq, Eq)]
pub struct RegisterServerOutput {
    pub user_id: String,
    pub device_id: String,
    pub device_identifier: String,
}

/// What the server answers when a new device asks to join a user.
#[derive(Debug, Clone, PartialEq, Eq)]
pub struct UserDeviceRegisterOutput {
    pub device_id: String,
    pub token: String,
    pub device_identifier: String,
    pub public_key_string: String,
    pub keypair_encrypt_alg: String,
}

/// What a device of the user sends to admit a new device.
#[derive(Debug, Clone, PartialEq, Eq)]
pub struct UserDeviceDoneRegisterInputLight {
    pub token: String,
}

/// What a client sends to start a login.
#[derive(Debug, Clone, PartialEq, Eq)]
pub struct PrepareLoginServerInput {
    pub user_identifier: String,
}

/// What the server answers to the start of a login: the salt for the
/// password and the algorithm of the key derivation.
#[derive(Debug, Clone, PartialEq, Eq)]
pub struct PrepareLoginSaltServerOutput {
    pub salt_string: String,
    pub derived_encryption_key_alg: String,
}

/// What a client sends to authenticate.
#[derive(Debug, Clone, PartialEq, Eq)]
pub struct DoneLoginServerInput {
    pub auth_key: String,
}

/// The wrapped keys of a user as the server hands them out after a
/// login.
#[derive(Debug, Clone, PartialEq, Eq)]
pub struct DoneLoginServerKeysOutput {
    pub encrypted_master_key: String,
    pub encrypted_private_key: String,
    pub public_key_string: String,
    pub keypair_encrypt_alg: String,
    pub encrypted_sign_key: String,
    pub verify_key_string: String,
    pub keypair_sign_alg: String,
    pub keypair_encrypt_id: String,
    pub keypair_sign_id: String,
}

/// The keys of a user after a login.
#[derive(Debug, Clone, PartialEq, Eq)]
pub struct KeyDataInt {
    pub private_key: PrivateKeyFormatInt,
    pub public_key: PublicKeyFormatInt,
    pub sign_key: SignKeyFormatInt,
    pub verify_key: VerifyKeyFormatInt,
    pub exported_public_key: UserPublicKeyData,
    pub exported_verify_key: UserVerifyKeyData,
}

/// What the server hands out for a user whose keys changed over time:
/// for each set of keys the answer to the start of a login and the wrapped
/// keys, in the same order.
#[derive(Debug, Clone, PartialEq, Eq)]
pub struct MultipleLoginServerOutput {
    pub logins: Vec<PrepareLoginSaltServerOutput>,
    pub done_logins: Vec<DoneLoginServerKeysOutput>,
}

/// What a client sends to change its password.
#[derive(Debug, Clone, PartialEq, Eq)]
pub struct ChangePasswordData {
    pub new_derived_alg: String,
    pub new_client_random_value: String,
    pub new_hashed_authentication_key: String,
    pub new_encrypted_master_key: String,
    pub new_encrypted_master_key_alg: String,
    pub old_auth_key: String,
}

/// What a client sends to set a new password when the old one is lost
/// and the keys are at hand.
#[derive(Debug, Clone, PartialEq, Eq)]
pub struct ResetPasswordData {
    pub client_random_value: String,
    pub hashed_authentication_key: String,
    pub master_key: MasterKey,
    pub derived_alg: String,
    pub encrypted_private_key: String,
    pub encrypted_sign_key: String,
}

/// What a client sends to change its identifier.
#[derive(Debug, Clone, PartialEq, Eq)]
pub struct ChangeUserIdentifierInput {
    pub user_identifier: String,
}

/// What a client sends to renew its token.
#[derive(Debug, Clone, PartialEq, Eq)]
pub struct JwtRefreshInput {
    pub refresh_token: String,
}

/// The key that encrypts the master key, as an application keeps it
/// between the two steps of a login: Base64 text under the tag of the key
/// derivation.
#[derive(Debug, Clone, PartialEq, Eq)]
pub enum MasterKeyFormat {
    Argon2(String),
}

/// The raw keys of a user.
pub struct UserKeys {
    pub private_key: Seq<u8>,
    pub public_key: Seq<u8>,
    pub sign_key: Seq<u8>,
    pub verify_key: Seq<u8>,
}

/// What a `KeyDataInt` holds.
pub struct KeyDataView {
    pub private_key: KeyView,
    pub public_key: KeyView,
    pub sign_key: KeyView,
    pub verify_key: KeyView,
}

impl View for KeyDataInt {
    type V = KeyDataView;

    open spec fn view(&self) -> KeyDataView {
        KeyDataView {
            private_key: self.private_key@,
            public_key: self.public_key@,
            sign_key: self.sign_key@,
            verify_key: self.verify_key@,
        }
    }
}

/// The two private keys of a user that the master key unwraps.
pub open spec fn private_keys_unwrapped(
    master_key: Seq<u8>,
    wrapped_private_key: Seq<u8>,
    keypair_encrypt_alg: Seq<char>,
    wrapped_sign_key: Seq<u8>,
    keypair_sign_alg: Seq<char>,
) -> Result<(Seq<u8>, Seq<u8>), Error> {
    match secret_key_unwrapped(master_key, wrapped_private_key, keypair_encrypt_alg) {
        Err(e) => Err(e),
        Ok(private_key) => match sign_key_unwrapped(
            master_key,
            wrapped_sign_key,
            keypair_sign_alg,
        ) {
            Err(e) => Err(e),
            Ok(sign_key) => Ok((private_key, sign_key)),
        },
    }
}

/// The keys that a login unwraps with the key that the password gave.
///
/// The three wrapped keys are decoded first. The master key is decrypted
/// under the key of the password, the two private keys under the master
/// key; the two public keys are read under the algorithm tags of their
/// key pairs.
pub open spec fn user_keys_unwrapped(
    master_key_encryption_key: Seq<u8>,
    encrypted_master_key: Seq<char>,
    encrypted_private_key: Seq<char>,
    public_key: Seq<char>,
    keypair_encrypt_alg: Seq<char>,
    encrypted_sign_key: Seq<char>,
    verify_key: Seq<char>,
    keypair_sign_alg: Seq<char>,
) -> Result<UserKeys, Error> {
    match (
        wrapped_key(encrypted_master_key, Error::DerivedKeyWrongFormat),
        wrapped_key(encrypted_private_key, Error::DerivedKeyWrongFormat),
        wrapped_key(encrypted_sign_key, Error::DerivedKeyWrongFormat),
    ) {
        (Ok(wrapped_master_key), Ok(wrapped_private_key), Ok(wrapped_sign_key)) => {
            match sym_key_unwrapped(
                master_key_encryption_key,
                wrapped_master_key,
                AES_GCM_OUTPUT@,
            ) {
                Err(e) => Err(e),
                Ok(master_key) => match private_keys_unwrapped(
                    master_key,
                    wrapped_private_key,
                    keypair_encrypt_alg,
                    wrapped_sign_key,
                    keypair_sign_alg,
                ) {
                    Err(e) => Err(e),
                    Ok((private_key, sign_key)) => match (
                        public_key_from_pem(public_key, keypair_encrypt_alg),
                        verify_key_from_pem(verify_key, keypair_sign_alg),
                    ) {
                        (Ok(public_key), Ok(verify_key)) => Ok(
                            UserKeys { private_key, public_key, sign_key, verify_key },
                        ),
                        (Err(e), _) => Err(e),
                        (_, Err(e)) => Err(e),
                    },
                },
            }
        },
        (Err(e), _, _) => Err(e),
        (_, Err(e), _) => Err(e),
        (_, _, Err(e)) => Err(e),
    }
}

/// What `done_login` gives: the keys of the user under the identifiers
/// and algorithm tags that the server reports.
pub open spec fn login_keys(master_key_encryption_key: Seq<u8>, output: DoneLoginServerKeysOutput)
    -> Result<KeyDataView, Error> {
    match user_keys_unwrapped(
        master_key_encryption_key,
        output.encrypted_master_key@,
        output.encrypted_private_key@,
        output.public_key_string@,
        output.keypair_encrypt_alg@,
        output.encrypted_sign_key@,
        output.verify_key_string@,
        output.keypair_sign_alg@,
    ) {
        Err(e) => Err(e),
        Ok(keys) => Ok(
            KeyDataView {
                private_key: KeyView {
                    alg: output.keypair_encrypt_alg@,
                    bytes: keys.private_key,
                    id: output.keypair_encrypt_id@,
                },
                public_key: KeyView {
                    alg: output.keypair_encrypt_alg@,
                    bytes: keys.public_key,
                    id: output.keypair_encrypt_id@,
                },
                sign_key: KeyView {
                    alg: output.keypair_sign_alg@,
                    bytes: keys.sign_key,
                    id: output.keypair_sign_id@,
                },
                verify_key: KeyView {
                    alg: output.keypair_sign_alg@,
                    bytes: keys.verify_key,
                    id: output.keypair_sign_id@,
                },
            },
        ),
    }
}

/// What a result that holds the keys of a user holds.
pub open spec fn result_key_data(res: Result<KeyDataInt, Error>) -> Result<KeyDataView, Error> {
    match res {
        Ok(keys) => Ok(keys@),
        Err(e) => Err(e),
    }
}

/// The two keys that a login derives from the password and the server's
/// answer: the key for the master key, then the key for authentication.
pub open spec fn login_keys_prepared(password: Seq<u8>, salt_string: Seq<char>, alg: Seq<char>)
    -> Result<(Seq<u8>, Seq<u8>), Error> {
    match base64_bytes(salt_string) {
        None => Err(Error::DecodeSaltFailed),
        Some(salt) => if alg != ARGON_2_OUTPUT@ {
            Err(Error::AlgNotFound)
        } else {
            password_keys(password, salt)
        },
    }
}

/// The master key that a password opens.
pub open spec fn master_key_of_login(
    password: Seq<u8>,
    salt_string: Seq<char>,
    alg: Seq<char>,
    encrypted_master_key: Seq<char>,
) -> Result<(Seq<u8>, Seq<u8>), Error> {
    match login_keys_prepared(password, salt_string, alg) {
        Err(e) => Err(e),
        Ok((encryption_key, auth_key)) => match wrapped_key(
            encrypted_master_key,
            Error::DerivedKeyWrongFormat,
        ) {
            Err(e) => Err(e),
            Ok(wrapped) => match sym_key_unwrapped(encryption_key, wrapped, AES_GCM_OUTPUT@) {
                Err(e) => Err(e),
                Ok(master_key) => Ok((master_key, auth_key)),
            },
        },
    }
}

/// Whether the password `password` opens what was derived for the server:
/// the random value gives a salt, password and salt give the two keys, the
/// server's hash is the hash of the second, and the first decrypts the
/// master key `master_key`.
pub open spec fn password_opens(
    password: Seq<u8>,
    derived_alg: Seq<char>,
    client_random_value: Seq<char>,
    hashed_authentication_key: Seq<char>,
    encrypted_master_key: Seq<char>,
    master_key: Seq<u8>,
) -> bool {
    &&& derived_alg == ARGON_2_OUTPUT@
    &&& base64_bytes(client_random_value) matches Some(random_value)
    &&& random_value.len() == RANDOM_VALUE_LENGTH
    &&& password_keys(password, salt_of(random_value, Seq::<u8>::empty())) matches Ok(
        (encryption_key, auth_key),
    )
    &&& base64_bytes(hashed_authentication_key) == Some(hashed_auth_key(auth_key))
    &&& base64_bytes(encrypted_master_key) matches Some(wrapped)
    &&& sym_key_unwrapped(encryption_key, wrapped, AES_GCM_OUTPUT@) == Ok::<Seq<u8>, Error>(
        master_key,
    )
}

/// Whether a login with the password `password` opens the registration
/// `data`: the password opens a master key, and the master key unwraps
/// key pairs that belong together.
pub open spec fn registration_opens(data: RegisterData, password: Seq<u8>) -> bool {
    exists|master_key: Seq<u8>|
        {
            &&& password_opens(
                password,
                data.derived.derived_alg@,
                data.derived.client_random_value@,
                data.derived.hashed_authentication_key@,
                data.master_key.encrypted_master_key@,
                master_key,
            )
            &&& registered_keys_open(data, master_key)
        }
}

/// Whether the master key `master_key` unwraps from the registration
/// `data` key pairs that belong together.
pub open spec fn registered_keys_open(data: RegisterData, master_key: Seq<u8>) -> bool {
    &&& base64_bytes(data.derived.encrypted_private_key@) matches Some(wrapped_private_key)
    &&& base64_bytes(data.derived.encrypted_sign_key@) matches Some(wrapped_sign_key)
    &&& private_keys_unwrapped(
        master_key,
        wrapped_private_key,
        data.derived.keypair_encrypt_alg@,
        wrapped_sign_key,
        data.derived.keypair_sign_alg@,
    ) matches Ok((private_key, sign_key))
    &&& public_key_from_pem(data.derived.public_key@, data.derived.keypair_encrypt_alg@)
        matches Ok(public_key)
    &&& verify_key_from_pem(data.derived.verify_key@, data.derived.keypair_sign_alg@) matches Ok(
        verify_key,
    )
    &&& is_key_pair(private_key, public_key)
    &&& is_sign_key_pair(sign_key, verify_key)
}

/// Whether the master key `master_key` unwraps from `data` the private
/// key `private_key` and the signing key `sign_key`.
pub open spec fn reset_keys_open(
    data: ResetPasswordData,
    master_key: Seq<u8>,
    private_key: KeyView,
    sign_key: KeyView,
) -> bool {
    &&& base64_bytes(data.encrypted_private_key@) matches Some(wrapped_private_key)
    &&& base64_bytes(data.encrypted_sign_key@) matches Some(wrapped_sign_key)
    &&& private_keys_unwrapped(
        master_key,
        wrapped_private_key,
        private_key.alg,
        wrapped_sign_key,
        sign_key.alg,
    ) == Ok::<(Seq<u8>, Seq<u8>), Error>((private_key.bytes, sign_key.bytes))
}

/// Whether a login with the password `password` opens `data`: the
/// password opens a master key, and the master key unwraps the private
/// key `private_key` and the signing key `sign_key`.
pub open spec fn reset_opens(
    data: ResetPasswordData,
    password: Seq<u8>,
    private_key: KeyView,
    sign_key: KeyView,
) -> bool {
    exists|master_key: Seq<u8>|
        {
            &&& password_opens(
                password,
                data.derived_alg@,
                data.client_random_value@,
                data.hashed_authentication_key@,
                data.master_key.encrypted_master_key@,
                master_key,
            )
            &&& reset_keys_open(data, master_key, private_key, sign_key)
        }
}

/// Asks whether the identifier `user_identifier` is free.
pub fn prepare_check_user_identifier_available(user_identifier: &str) -> (res: Result<
    UserIdentifierAvailableServerInput,
    Error,
>)
    ensures
        res matches Ok(input) && input.user_identifier@ == user_identifier@,
{
    Ok(UserIdentifierAvailableServerInput { user_identifier: String::from_str(user_identifier) })
}

/// Reads the server's answer about an identifier: whether it is free.
///
/// Fails as `handle_server_response` does.
pub fn done_check_user_identifier_available(
    server_output: ServerOutput<UserIdentifierAvailableServerOutput>,
) -> (res: Result<bool, SdkError>)
    ensures
        match server_response(server_output) {
            Ok(output) => res == Ok::<bool, SdkError>(output.available),
            Err(e) => res == Err::<bool, SdkError>(e),
        },
{
    match handle_server_response(server_output) {
        Ok(output) => Ok(output.available),
        Err(e) => Err(e),
    }
}

/// Whether `text` is the Base64 text of `length` bytes, which it
/// decodes to again.
pub open spec fn is_text_of_bytes(text: Seq<char>, length: nat) -> bool {
    &&& base64_bytes(text) matches Some(bytes)
    &&& bytes.len() == length
    &&& text == base64_text(bytes)
}

/// The identifier and the password that a generator makes of what the
/// random number generator gave: the Base64 text of each.
pub fn register_data_from_random(identifier: Option<Vec<u8>>, password: Option<Vec<u8>>) -> (res:
    Result<(String, String), Error>)
    ensures
        match (bytes_of(identifier), bytes_of(password)) {
            (Some(i), Some(p)) => if i.len() == GENERATED_IDENTIFIER_LENGTH && p.len()
                == GENERATED_PASSWORD_LENGTH {
                res matches Ok((identifier_text, password_text)) && identifier_text@
                    == base64_text(i) && password_text@ == base64_text(p) && base64_bytes(
                    identifier_text@,
                ) == Some(i) && base64_bytes(password_text@) == Some(p)
            } else {
                res == Err::<(String, String), Error>(Error::KeyCreationFailed)
            },
            _ => res == Err::<(String, String), Error>(Error::KeyCreationFailed),
        },
{
    match (identifier, password) {
        (Some(identifier), Some(password)) => {
            if identifier.len() != GENERATED_IDENTIFIER_LENGTH || password.len()
                != GENERATED_PASSWORD_LENGTH {
                return Err(Error::KeyCreationFailed);
            }
            Ok((base64_encode(identifier.as_slice()), base64_encode(password.as_slice())))
        },
        _ => Err(Error::KeyCreationFailed),
    }
}

/// Generates an identifier and a password for a user that an application
/// registers on its own.
///
/// Fails with `KeyCreationFailed` where the system gives no random
/// bytes; `register_data_from_random` says what is made of them. On
/// success the identifier is the Base64 text of 20 bytes and the password
/// the Base64 text of 40 bytes.
pub fn generate_user_register_data() -> (res: Result<(String, String), Error>)
    ensures
        res matches Ok((identifier, password)) ==> is_text_of_bytes(
            identifier@,
            GENERATED_IDENTIFIER_LENGTH as nat,
        ) && is_text_of_bytes(password@, GENERATED_PASSWORD_LENGTH as nat),
        res matches Err(e) ==> e == Error::KeyCreationFailed,
{
    let identifier = random_bytes(GENERATED_IDENTIFIER_LENGTH);
    let password = random_bytes(GENERATED_PASSWORD_LENGTH);
    register_data_from_random(identifier, password)
}

fn master_key_data(derived: &DeriveKeyOutput) -> (res: MasterKey)
    requires
        derived.encrypted_master_key@.len() * 4 <= usize::MAX,
    ensures
        res.master_key_alg@ == derived.master_key_alg@,
        res.encrypted_master_key@ == base64_text(derived.encrypted_master_key@),
        base64_bytes(res.encrypted_master_key@) == Some(derived.encrypted_master_key@),
        res.encrypted_master_key_alg@ == derived.alg@,
{
    MasterKey {
        master_key_alg: String::from_str(derived.master_key_alg),
        encrypted_master_key: base64_encode(derived.encrypted_master_key.as_slice()),
        encrypted_master_key_alg: String::from_str(derived.alg),
    }
}

/// Number of random bytes that a registration takes: the master key, the
/// private key, the signing key, a nonce for wrapping each of the two, and
/// what deriving from the password takes.
pub const REGISTER_ENTROPY_LENGTH: usize = 148;

/// Number of random bytes that setting a new password for keys at hand
/// takes: the master key, a nonce for wrapping each of the two keys, and
/// what deriving from the password takes.
pub const RESET_ENTROPY_LENGTH: usize = 84;

/// The two private keys, wrapped under a master key.
pub struct WrappedPrivateKeys {
    pub private_key: Seq<u8>,
    pub sign_key: Seq<u8>,
}

/// The private key `private_key` and the signing key `sign_key`, each
/// wrapped under the master key `master_key` with twelve of the random
/// bytes `entropy` as nonce.
pub open spec fn private_keys_wrapped(
    master_key: Seq<u8>,
    private_key: Seq<u8>,
    sign_key: Seq<u8>,
    entropy: Seq<u8>,
) -> Result<WrappedPrivateKeys, Error> {
    match sym_encrypted(master_key, entropy.subrange(0, 12), Seq::<u8>::empty(), private_key) {
        Err(e) => Err(e),
        Ok(wrapped_private_key) => match sym_encrypted(
            master_key,
            entropy.subrange(12, 24),
            Seq::<u8>::empty(),
            sign_key,
        ) {
            Err(e) => Err(e),
            Ok(wrapped_sign_key) => Ok(
                WrappedPrivateKeys { private_key: wrapped_private_key, sign_key: wrapped_sign_key },
            ),
        },
    }
}

/// What a registration makes: the keys, raw and wrapped, and what was
/// derived from the password.
pub struct Registration {
    pub master_key: Seq<u8>,
    pub private_key: Seq<u8>,
    pub sign_key: Seq<u8>,
    pub wrapped: WrappedPrivateKeys,
    pub derived: Derived,
    pub public_key_pem: Seq<char>,
    pub verify_key_pem: Seq<char>,
}

/// What `register_with` makes of the password and its random bytes.
///
/// The first bytes are the master key, the next the private key, the next
/// the signing key. The two are wrapped under the master key, the master
/// key is encrypted under a key of the password, and the two public keys
/// are written as PEM.
pub open spec fn registration(password: Seq<u8>, entropy: Seq<u8>) -> Result<Registration, Error> {
    if entropy.len() != REGISTER_ENTROPY_LENGTH {
        Err(Error::KeyCreationFailed)
    } else {
        let master_key = entropy.subrange(0, 32);
        let private_key = entropy.subrange(32, 64);
        let sign_key = entropy.subrange(64, 96);
        match private_keys_wrapped(master_key, private_key, sign_key, entropy.subrange(96, 120)) {
            Err(e) => Err(e),
            Ok(wrapped) => match derived(password, master_key, entropy.subrange(120, 148)) {
                Err(e) => Err(e),
                Ok(derived) => match (
                    key_to_pem(x25519_public(private_key)),
                    key_to_pem(ed25519_public(sign_key)),
                ) {
                    (Ok(public_key_pem), Ok(verify_key_pem)) => Ok(
                        Registration {
                            master_key,
                            private_key,
                            sign_key,
                            wrapped,
                            derived,
                            public_key_pem,
                            verify_key_pem,
                        },
                    ),
                    (Err(e), _) => Err(e),
                    (_, Err(e)) => Err(e),
                },
            },
        }
    }
}

/// Whether `data` is what a client sends for the registration
/// `registration` under the identifier `user_identifier`.
pub open spec fn is_register_data(
    data: RegisterData,
    user_identifier: Seq<char>,
    registration: Registration,
) -> bool {
    &&& data.user_identifier@ == user_identifier
    &&& data.master_key.master_key_alg@ == AES_GCM_OUTPUT@
    &&& data.master_key.encrypted_master_key@ == base64_text(
        registration.derived.encrypted_master_key,
    )
    &&& data.master_key.encrypted_master_key_alg@ == ARGON_2_OUTPUT@
    &&& data.derived.derived_alg@ == ARGON_2_OUTPUT@
    &&& data.derived.client_random_value@ == base64_text(registration.derived.client_random_value)
    &&& data.derived.hashed_authentication_key@ == base64_text(
        registration.derived.hashed_authentication_key,
    )
    &&& data.derived.public_key@ == registration.public_key_pem
    &&& data.derived.verify_key@ == registration.verify_key_pem
    &&& data.derived.keypair_encrypt_alg@ == ECIES_OUTPUT@
    &&& data.derived.keypair_sign_alg@ == ED25519_OUTPUT@
    &&& data.derived.encrypted_private_key@ == base64_text(registration.wrapped.private_key)
    &&& data.derived.encrypted_sign_key@ == base64_text(registration.wrapped.sign_key)
}

fn wrap_private_keys(
    master_key: &SymmetricKey,
    private_key: &[u8],
    sign_key: &[u8],
    entropy: &[u8],
) -> (res: Result<(Vec<u8>, Vec<u8>), Error>)
    requires
        entropy@.len() == 24,
        private_key@.len() == AES_KEY_LENGTH,
        sign_key@.len() == AES_KEY_LENGTH,
    ensures
        match private_keys_wrapped(master_key.bytes(), private_key@, sign_key@, entropy@) {
            Ok(wrapped) => res matches Ok((wrapped_private_key, wrapped_sign_key))
                && wrapped_private_key@ == wrapped.private_key && wrapped_sign_key@
                == wrapped.sign_key,
            Err(e) => res == Err::<(Vec<u8>, Vec<u8>), Error>(e),
        },
        res matches Ok((wrapped_private_key, wrapped_sign_key)) ==> {
            &&& wrapped_private_key@.len() * 4 <= usize::MAX
            &&& wrapped_sign_key@.len() * 4 <= usize::MAX
            &&& private_keys_unwrapped(
                master_key.bytes(),
                wrapped_private_key@,
                ECIES_OUTPUT@,
                wrapped_sign_key@,
                ED25519_OUTPUT@,
            ) == Ok::<(Seq<u8>, Seq<u8>), Error>((private_key@, sign_key@))
        },
        res matches Err(e) ==> e == Error::EncryptionFailed,
{
    let aad: [u8; 0] = [];
    assert(aad@ =~= Seq::<u8>::empty());
    let wrapped_private_key = match master_key.encrypt_with_nonce(
        slice_subrange(entropy, 0, 12),
        aad.as_slice(),
        private_key,
    ) {
        Ok(wrapped) => wrapped,
        Err(e) => { return Err(e); },
    };
    let wrapped_sign_key = match master_key.encrypt_with_nonce(
        slice_subrange(entropy, 12, 24),
        aad.as_slice(),
        sign_key,
    ) {
        Ok(wrapped) => wrapped,
        Err(e) => { return Err(e); },
    };
    Ok((wrapped_private_key, wrapped_sign_key))
}

/// Makes the keys of a new user or device from the random bytes `entropy`
/// and wraps them under the password `password`.
///
/// The result is a function of the arguments. Fails with
/// `KeyCreationFailed` where `entropy` has not as many bytes as a
/// registration takes, with `EncryptionFailed` where a cipher refuses its
/// input, as the key derivation does, and with `ExportingPublicKeyFailed`
/// where a public key cannot be written. A login with the same password
/// opens the result: it reaches the master key and, with it, key pairs
/// that belong together.
pub fn register_with(user_identifier: &str, password: &str, entropy: &[u8]) -> (res: Result<
    RegisterData,
    Error,
>)
    ensures
        match registration(password.spec_bytes(), entropy@) {
            Ok(registration) => res matches Ok(data) && is_register_data(
                data,
                user_identifier@,
                registration,
            ),
            Err(e) => res == Err::<RegisterData, Error>(e),
        },
        res matches Ok(data) ==> registration_opens(data, password.spec_bytes()),
        res matches Err(e) ==> is_key_setup_failure(e),
{
    if entropy.len() != REGISTER_ENTROPY_LENGTH {
        return Err(Error::KeyCreationFailed);
    }
    let master_key = match to_array::<32>(slice_subrange(entropy, 0, 32)) {
        Some(key) => SymmetricKey::Aes(key),
        None => { return Err(Error::KeyCreationFailed); },
    };
    let private_key = match to_array::<32>(slice_subrange(entropy, 32, 64)) {
        Some(key) => SecretKey::Ecies(key),
        None => { return Err(Error::KeyCreationFailed); },
    };
    let sign_key = match to_array::<32>(slice_subrange(entropy, 64, 96)) {
        Some(key) => SignKey::Ed25519(key),
        None => { return Err(Error::KeyCreationFailed); },
    };
    let public_key = private_key.public_key();
    let verify_key = sign_key.verify_key();
    let (wrapped_private_key, wrapped_sign_key) = match wrap_private_keys(
        &master_key,
        private_key.as_bytes(),
        sign_key.as_bytes(),
        slice_subrange(entropy, 96, 120),
    ) {
        Ok(wrapped) => wrapped,
        Err(e) => { return Err(e); },
    };
    let derived = match derived_keys_with_entropy(
        password.as_bytes(),
        &master_key,
        slice_subrange(entropy, 120, 148),
    ) {
        Ok(derived) => derived,
        Err(e) => { return Err(e); },
    };
    let public_key_pem = match export_raw_public_key_to_pem(&public_key) {
        Ok(pem) => pem,
        Err(e) => { return Err(e); },
    };
    let verify_key_pem = match export_raw_verify_key_to_pem(&verify_key) {
        Ok(pem) => pem,
        Err(e) => { return Err(e); },
    };
    let data = RegisterData {
        master_key: master_key_data(&derived),
        derived: KeyDerivedData {
            derived_alg: String::from_str(derived.alg),
            client_random_value: base64_encode(derived.client_random_value.as_bytes()),
            hashed_authentication_key: base64_encode(
                derived.hashed_authentication_key.as_bytes(),
            ),
            public_key: public_key_pem,
            verify_key: verify_key_pem,
            keypair_encrypt_alg: String::from_str(ECIES_OUTPUT),
            keypair_sign_alg: String::from_str(ED25519_OUTPUT),
            encrypted_private_key: base64_encode(wrapped_private_key.as_slice()),
            encrypted_sign_key: base64_encode(wrapped_sign_key.as_slice()),
        },
        user_identifier: String::from_str(user_identifier),
    };
    proof {
        assert(derived_opens(password.spec_bytes(), derived.derived(), master_key.bytes()));
        assert(password_opens(
            password.spec_bytes(),
            data.derived.derived_alg@,
            data.derived.client_random_value@,
            data.derived.hashed_authentication_key@,
            data.master_key.encrypted_master_key@,
            master_key.bytes(),
        ));
        assert(registered_keys_open(data, master_key.bytes()));
    }
    Ok(data)
}

/// Makes the keys of a new user or device and wraps them under the
/// password `password`.
///
/// Fails with `KeyCreationFailed` where the system gives no random
/// bytes, and as `register_with` does, which says what is made of them. A
/// login with the same password opens the result: it reaches the master
/// key and, with it, key pairs that belong together.
pub fn register(user_identifier: &str, password: &str) -> (res: Result<RegisterData, Error>)
    ensures
        res matches Ok(data) ==> data.user_identifier@ == user_identifier@ && registration_opens(
            data,
            password.spec_bytes(),
        ),
        res matches Err(e) ==> is_key_setup_failure(e),
{
    match random_bytes(REGISTER_ENTROPY_LENGTH) {
        Some(entropy) => register_with(user_identifier, password, entropy.as_slice()),
        None => Err(Error::KeyCreationFailed),
    }
}

/// Reads the server's answer to a registration: the identifier that the
/// server gave the user.
///
/// Fails as `handle_server_response` does.
pub fn done_register(server_output: ServerOutput<RegisterServerOutput>) -> (res: Result<
    String,
    SdkError,
>)
    ensures
        match server_response(server_output) {
            Ok(output) => res == Ok::<String, SdkError>(output.user_id),
            Err(e) => res == Err::<String, SdkError>(e),
        },
{
    match handle_server_response(server_output) {
        Ok(output) => Ok(output.user_id),
        Err(e) => Err(e),
    }
}

/// Checks the server's answer to a new device that asked to join a user.
///
/// Fails as `handle_server_response` does.
pub fn done_register_device_start(server_output: ServerOutput<UserDeviceRegisterOutput>) -> (res:
    Result<(), SdkError>)
    ensures
        match server_response(server_output) {
            Ok(_) => res == Ok::<(), SdkError>(()),
            Err(e) => res == Err::<(), SdkError>(e),
        },
{
    match handle_server_response(server_output) {
        Ok(_) => Ok(()),
        Err(e) => Err(e),
    }
}

/// Admits a new device: hands the token that the server gave the device
/// back to the server, from a device that is logged in.
///
/// Fails as `handle_server_response` does.
pub fn prepare_register_device(server_output: ServerOutput<UserDeviceRegisterOutput>) -> (res:
    Result<UserDeviceDoneRegisterInputLight, SdkError>)
    ensures
        match server_response(server_output) {
            Ok(output) => res matches Ok(input) && input.token == output.token,
            Err(e) => res == Err::<UserDeviceDoneRegisterInputLight, SdkError>(e),
        },
{
    match handle_server_response(server_output) {
        Ok(output) => Ok(UserDeviceDoneRegisterInputLight { token: output.token }),
        Err(e) => Err(e),
    }
}

/// Starts a login for the identifier `user_identifier`.
pub fn prepare_login_start(user_identifier: &str) -> (res: Result<PrepareLoginServerInput, Error>)
    ensures
        res matches Ok(input) && input.user_identifier@ == user_identifier@,
{
    Ok(PrepareLoginServerInput { user_identifier: String::from_str(user_identifier) })
}

/// Derives the keys of a login from the password and the server's
/// answer: what authenticates to the server, and the key for the master
/// key, which stays with the client.
///
/// Fails with `DecodeSaltFailed` where the salt is no Base64, with
/// `AlgNotFound` on an unknown key derivation, and as the key derivation
/// does.
pub fn prepare_login(password: &str, server_output: &PrepareLoginSaltServerOutput) -> (res: Result<
    (DoneLoginServerInput, DeriveMasterKeyForAuth),
    Error,
>)
    ensures
        match login_keys_prepared(
            password.spec_bytes(),
            server_output.salt_string@,
            server_output.derived_encryption_key_alg@,
        ) {
            Ok((encryption_key, auth_key)) => res matches Ok((input, key)) && key.bytes()
                == encryption_key && input.auth_key@ == base64_text(auth_key),
            Err(e) => res == Err::<(DoneLoginServerInput, DeriveMasterKeyForAuth), Error>(e),
        },
{
    let salt = match base64_decode(server_output.salt_string.as_str()) {
        Some(salt) => salt,
        None => { return Err(Error::DecodeSaltFailed); },
    };
    if !same_text(server_output.derived_encryption_key_alg.as_str(), ARGON_2_OUTPUT) {
        return Err(Error::AlgNotFound);
    }
    let (encryption_key, auth_key) = match derive_keys_for_auth(
        password.as_bytes(),
        salt.as_slice(),
    ) {
        Ok(keys) => keys,
        Err(e) => { return Err(e); },
    };
    Ok((DoneLoginServerInput { auth_key: base64_encode(auth_key.as_bytes()) }, encryption_key))
}

fn decode_wrapped(text: &str) -> (res: Result<Vec<u8>, Error>)
    ensures
        crate::alg::sym::result_bytes(res) == wrapped_key(text@, Error::DerivedKeyWrongFormat),
{
    match base64_decode(text) {
        Some(bytes) => Ok(bytes),
        None => Err(Error::DerivedKeyWrongFormat),
    }
}

/// Whether `keys` holds the public key and the verification key for others
/// as the server's answer gave them: the PEM text, the algorithm tag and the
/// identifier of each.
pub open spec fn holds_exported_keys(
    keys: KeyDataInt,
    server_output: DoneLoginServerKeysOutput,
) -> bool {
    &&& keys.exported_public_key.public_key_pem@ == server_output.public_key_string@
    &&& keys.exported_public_key.public_key_alg@ == server_output.keypair_encrypt_alg@
    &&& keys.exported_public_key.public_key_id@ == server_output.keypair_encrypt_id@
    &&& keys.exported_verify_key.verify_key_pem@ == server_output.verify_key_string@
    &&& keys.exported_verify_key.verify_key_alg@ == server_output.keypair_sign_alg@
    &&& keys.exported_verify_key.verify_key_id@ == server_output.keypair_sign_id@
}

/// Completes a login: unwraps the keys of the user with the key that the
/// password gave.
///
/// Fails with `DerivedKeyWrongFormat` where a wrapped key is no Base64,
/// as decryption does where the password was wrong or a ciphertext is
/// damaged, and as reading a key does. The result is a function of the
/// arguments.
pub fn done_login(
    master_key_encryption: &DeriveMasterKeyForAuth,
    server_output: &DoneLoginServerKeysOutput,
) -> (res: Result<KeyDataInt, Error>)
    ensures
        result_key_data(res) == login_keys(master_key_encryption.bytes(), *server_output),
        res matches Ok(keys) ==> holds_exported_keys(keys, *server_output),
{
    let wrapped_master_key = match decode_wrapped(server_output.encrypted_master_key.as_str()) {
        Ok(wrapped) => wrapped,
        Err(e) => { return Err(e); },
    };
    let wrapped_private_key = match decode_wrapped(server_output.encrypted_private_key.as_str()) {
        Ok(wrapped) => wrapped,
        Err(e) => { return Err(e); },
    };
    let wrapped_sign_key = match decode_wrapped(server_output.encrypted_sign_key.as_str()) {
        Ok(wrapped) => wrapped,
        Err(e) => { return Err(e); },
    };
    let master_key = match master_key_encryption.get_master_key(
        wrapped_master_key.as_slice(),
        AES_GCM_OUTPUT,
    ) {
        Ok(key) => key,
        Err(e) => { return Err(e); },
    };
    let private_key = match SecretKey::decrypt_by_master_key(
        &master_key,
        wrapped_private_key.as_slice(),
        server_output.keypair_encrypt_alg.as_str(),
    ) {
        Ok(key) => key,
        Err(e) => { return Err(e); },
    };
    let sign_key = match SignKey::decrypt_by_master_key(
        &master_key,
        wrapped_sign_key.as_slice(),
        server_output.keypair_sign_alg.as_str(),
    ) {
        Ok(key) => key,
        Err(e) => { return Err(e); },
    };
    let public_key = match import_public_key_from_pem_with_alg(
        server_output.public_key_string.as_str(),
        server_output.keypair_encrypt_alg.as_str(),
    ) {
        Ok(key) => key,
        Err(e) => { return Err(e); },
    };
    let verify_key = match import_verify_key_from_pem_with_alg(
        server_output.verify_key_string.as_str(),
        server_output.keypair_sign_alg.as_str(),
    ) {
        Ok(key) => key,
        Err(e) => { return Err(e); },
    };
    Ok(
        KeyDataInt {
            private_key: PrivateKeyFormatInt {
                key: private_key,
                key_id: server_output.keypair_encrypt_id.clone(),
            },
            public_key: PublicKeyFormatInt {
                key: public_key,
                key_id: server_output.keypair_encrypt_id.clone(),
            },
            sign_key: SignKeyFormatInt {
                key: sign_key,
                key_id: server_output.keypair_sign_id.clone(),
            },
            verify_key: VerifyKeyFormatInt {
                key: verify_key,
                key_id: server_output.keypair_sign_id.clone(),
            },
            exported_public_key: UserPublicKeyData {
                public_key_pem: server_output.public_key_string.clone(),
                public_key_alg: server_output.keypair_encrypt_alg.clone(),
                public_key_id: server_output.keypair_encrypt_id.clone(),
            },
            exported_verify_key: UserVerifyKeyData {
                verify_key_pem: server_output.verify_key_string.clone(),
                verify_key_alg: server_output.keypair_sign_alg.clone(),
                verify_key_id: server_output.keypair_sign_id.clone(),
            },
        },
    )
}

/// The keys that a password opens from one set of what the server hands
/// out: the password and the salt give the key for the master key, and
/// that key unwraps the rest.
pub open spec fn password_login(
    password: Seq<u8>,
    login: PrepareLoginSaltServerOutput,
    done_login: DoneLoginServerKeysOutput,
) -> Result<KeyDataView, Error> {
    match login_keys_prepared(password, login.salt_string@, login.derived_encryption_key_alg@) {
        Err(e) => Err(e),
        Ok((encryption_key, _)) => login_keys(encryption_key, done_login),
    }
}

fn login_with_password(
    password: &str,
    login: &PrepareLoginSaltServerOutput,
    done: &DoneLoginServerKeysOutput,
) -> (res: Result<KeyDataInt, Error>)
    ensures
        result_key_data(res) == password_login(password.spec_bytes(), *login, *done),
        res matches Ok(keys) ==> holds_exported_keys(keys, *done),
{
    match prepare_login(password, login) {
        Ok((_, encryption_key)) => done_login(&encryption_key, done),
        Err(e) => Err(e),
    }
}

/// Opens every set of keys of a user with the password, so that content
/// under older keys can be encrypted anew.
///
/// Fails with `LoginServerOutputWrong` where the server's answer does
/// not hold as many wrapped key sets as salts, and as a login does on the
/// first set that fails. On success the result holds the keys of every
/// set, in the order of the answer, each with the public key and the
/// verification key for others as the answer gave them.
pub fn prepare_update_user_keys(password: &str, server_output: &MultipleLoginServerOutput) -> (res:
    Result<Vec<KeyDataInt>, Error>)
    ensures
        server_output.logins@.len() != server_output.done_logins@.len() ==> res == Err::<
            Vec<KeyDataInt>,
            Error,
        >(Error::LoginServerOutputWrong),
        server_output.logins@.len() == server_output.done_logins@.len() ==> match res {
            Ok(keys) => keys@.len() == server_output.logins@.len() && forall|i: int|
                0 <= i < keys@.len() ==> password_login(
                    password.spec_bytes(),
                    #[trigger] server_output.logins@[i],
                    server_output.done_logins@[i],
                ) == Ok::<KeyDataView, Error>(keys@[i]@) && holds_exported_keys(
                    keys@[i],
                    server_output.done_logins@[i],
                ),
            Err(e) => exists|i: int|
                {
                    &&& 0 <= i < server_output.logins@.len()
                    &&& password_login(
                        password.spec_bytes(),
                        #[trigger] server_output.logins@[i],
                        server_output.done_logins@[i],
                    ) == Err::<KeyDataView, Error>(e)
                    &&& forall|j: int|
                        0 <= j < i ==> password_login(
                            password.spec_bytes(),
                            #[trigger] server_output.logins@[j],
                            server_output.done_logins@[j],
                        ) is Ok
                },
        },
{
    if server_output.logins.len() != server_output.done_logins.len() {
        return Err(Error::LoginServerOutputWrong);
    }
    let mut keys: Vec<KeyDataInt> = Vec::with_capacity(server_output.logins.len());
    let mut i: usize = 0;
    while i < server_output.logins.len()
        invariant
            i <= server_output.logins@.len(),
            server_output.logins@.len() == server_output.done_logins@.len(),
            keys@.len() == i,
            forall|j: int|
                0 <= j < i ==> password_login(
                    password.spec_bytes(),
                    #[trigger] server_output.logins@[j],
                    server_output.done_logins@[j],
                ) == Ok::<KeyDataView, Error>(keys@[j]@) && holds_exported_keys(
                    keys@[j],
                    server_output.done_logins@[j],
                ),
        decreases server_output.logins@.len() - i,
    {
        match login_with_password(
            password,
            &server_output.logins[i],
            &server_output.done_logins[i],
        ) {
            Ok(key) => {
                keys.push(key);
            },
            Err(e) => {
                return Err(e);
            },
        }
        i += 1;
    }
    Ok(keys)
}

/// What `change_password_with` makes of its arguments: what is derived
/// from the new password for the master key that the old password opens,
/// and what authenticates the old password.
pub open spec fn password_changed(
    old_pw: Seq<u8>,
    new_pw: Seq<u8>,
    old_salt: Seq<char>,
    encrypted_master_key: Seq<char>,
    alg: Seq<char>,
    entropy: Seq<u8>,
) -> Result<(Derived, Seq<u8>), Error> {
    match master_key_of_login(old_pw, old_salt, alg, encrypted_master_key) {
        Err(e) => Err(e),
        Ok((master_key, old_auth_key)) => match derived(new_pw, master_key, entropy) {
            Err(e) => Err(e),
            Ok(derived) => Ok((derived, old_auth_key)),
        },
    }
}

/// Whether `data` is what a client sends for what was derived from its
/// new password and for what authenticates its old one.
pub open spec fn is_change_password_data(
    data: ChangePasswordData,
    derived: Derived,
    old_auth_key: Seq<u8>,
) -> bool {
    &&& data.new_derived_alg@ == ARGON_2_OUTPUT@
    &&& data.new_client_random_value@ == base64_text(derived.client_random_value)
    &&& data.new_hashed_authentication_key@ == base64_text(derived.hashed_authentication_key)
    &&& data.new_encrypted_master_key@ == base64_text(derived.encrypted_master_key)
    &&& data.new_encrypted_master_key_alg@ == AES_GCM_OUTPUT@
    &&& data.old_auth_key@ == base64_text(old_auth_key)
}

/// Changes the password with the random bytes `entropy`: opens the master
/// key with the old password and encrypts it under a key of the new one.
///
/// The result is a function of the arguments. Fails as a login with the
/// old password does: with `DecodeSaltFailed` or `DerivedKeyWrongFormat`
/// where the salt or the master key is no Base64, with `AlgNotFound` on an
/// unknown key derivation, with `DecryptionFailed` where the old password
/// is wrong. Fails with `KeyCreationFailed` where `entropy` has not the 28
/// bytes that deriving takes, and as deriving from the new password does.
/// The result tells the server how the new password opens the same master
/// key, together with what authenticates the old password.
pub fn change_password_with(
    old_pw: &str,
    new_pw: &str,
    old_salt: &str,
    encrypted_master_key: &str,
    derived_encryption_key_alg: &str,
    entropy: &[u8],
) -> (res: Result<ChangePasswordData, Error>)
    ensures
        match password_changed(
            old_pw.spec_bytes(),
            new_pw.spec_bytes(),
            old_salt@,
            encrypted_master_key@,
            derived_encryption_key_alg@,
            entropy@,
        ) {
            Ok((derived, old_auth_key)) => res matches Ok(data) && is_change_password_data(
                data,
                derived,
                old_auth_key,
            ),
            Err(e) => res == Err::<ChangePasswordData, Error>(e),
        },
        res matches Ok(data) ==> master_key_of_login(
            old_pw.spec_bytes(),
            old_salt@,
            derived_encryption_key_alg@,
            encrypted_master_key@,
        ) matches Ok((master_key, _)) && password_opens(
            new_pw.spec_bytes(),
            data.new_derived_alg@,
            data.new_client_random_value@,
            data.new_hashed_authentication_key@,
            data.new_encrypted_master_key@,
            master_key,
        ),
{
    match open_master_key(old_pw, old_salt, encrypted_master_key, derived_encryption_key_alg) {
        Ok((master_key, old_auth_key)) => change_password_of(
            new_pw,
            &master_key,
            &old_auth_key,
            entropy,
        ),
        Err(e) => Err(e),
    }
}

/// The master key and the authentication key that a result holds.
pub open spec fn result_opened(res: Result<(SymmetricKey, DeriveAuthKeyForAuth), Error>) -> Result<
    (Seq<u8>, Seq<u8>),
    Error,
> {
    match res {
        Ok((master_key, auth_key)) => Ok((master_key.bytes(), auth_key.bytes())),
        Err(e) => Err(e),
    }
}

/// Opens the master key as a login with `password` does, and derives
/// what authenticates the password.
fn open_master_key(
    password: &str,
    salt_string: &str,
    encrypted_master_key: &str,
    derived_encryption_key_alg: &str,
) -> (res: Result<(SymmetricKey, DeriveAuthKeyForAuth), Error>)
    ensures
        result_opened(res) == master_key_of_login(
            password.spec_bytes(),
            salt_string@,
            derived_encryption_key_alg@,
            encrypted_master_key@,
        ),
{
    let salt = match base64_decode(salt_string) {
        Some(salt) => salt,
        None => { return Err(Error::DecodeSaltFailed); },
    };
    if !same_text(derived_encryption_key_alg, ARGON_2_OUTPUT) {
        return Err(Error::AlgNotFound);
    }
    let (encryption_key, auth_key) = match derive_keys_for_auth(
        password.as_bytes(),
        salt.as_slice(),
    ) {
        Ok(keys) => keys,
        Err(e) => { return Err(e); },
    };
    let wrapped_master_key = match decode_wrapped(encrypted_master_key) {
        Ok(wrapped) => wrapped,
        Err(e) => { return Err(e); },
    };
    match encryption_key.get_master_key(wrapped_master_key.as_slice(), AES_GCM_OUTPUT) {
        Ok(master_key) => Ok((master_key, auth_key)),
        Err(e) => Err(e),
    }
}

/// Derives from the new password, with the random bytes `entropy`, what
/// the server keeps for the master key `master_key`.
fn change_password_of(
    new_pw: &str,
    master_key: &SymmetricKey,
    old_auth_key: &DeriveAuthKeyForAuth,
    entropy: &[u8],
) -> (res: Result<ChangePasswordData, Error>)
    ensures
        match derived(new_pw.spec_bytes(), master_key.bytes(), entropy@) {
            Ok(derived) => res matches Ok(data) && is_change_password_data(
                data,
                derived,
                old_auth_key.bytes(),
            ),
            Err(e) => res == Err::<ChangePasswordData, Error>(e),
        },
        res matches Ok(data) ==> password_opens(
            new_pw.spec_bytes(),
            data.new_derived_alg@,
            data.new_client_random_value@,
            data.new_hashed_authentication_key@,
            data.new_encrypted_master_key@,
            master_key.bytes(),
        ),
        res matches Err(e) ==> is_key_setup_failure(e),
{
    let derived = match derived_keys_with_entropy(new_pw.as_bytes(), master_key, entropy) {
        Ok(derived) => derived,
        Err(e) => { return Err(e); },
    };
    let data = ChangePasswordData {
        new_derived_alg: String::from_str(derived.alg),
        new_client_random_value: base64_encode(derived.client_random_value.as_bytes()),
        new_hashed_authentication_key: base64_encode(derived.hashed_authentication_key.as_bytes()),
        new_encrypted_master_key: base64_encode(derived.encrypted_master_key.as_slice()),
        new_encrypted_master_key_alg: String::from_str(derived.master_key_alg),
        old_auth_key: base64_encode(old_auth_key.as_bytes()),
    };
    proof {
        assert(derived_opens(new_pw.spec_bytes(), derived.derived(), master_key.bytes()));
    }
    Ok(data)
}

/// Changes the password: opens the master key with the old password and
/// encrypts it under a key of the new one.
///
/// Opens the master key before it asks for random bytes, so it fails
/// exactly as a login with the old password does where that fails. Where
/// the old password opens the master key, it fails with
/// `KeyCreationFailed` where the system gives no random bytes, and as
/// `change_password_with` does, which says what is made of them. The
/// result tells the server how the new password opens the same master
/// key, together with what authenticates the old password.
pub fn change_password(
    old_pw: &str,
    new_pw: &str,
    old_salt: &str,
    encrypted_master_key: &str,
    derived_encryption_key_alg: &str,
) -> (res: Result<ChangePasswordData, Error>)
    ensures
        match master_key_of_login(
            old_pw.spec_bytes(),
            old_salt@,
            derived_encryption_key_alg@,
            encrypted_master_key@,
        ) {
            Err(e) => res == Err::<ChangePasswordData, Error>(e),
            Ok((master_key, old_auth_key)) => match res {
                Ok(data) => data.old_auth_key@ == base64_text(old_auth_key) && password_opens(
                    new_pw.spec_bytes(),
                    data.new_derived_alg@,
                    data.new_client_random_value@,
                    data.new_hashed_authentication_key@,
                    data.new_encrypted_master_key@,
                    master_key,
                ),
                Err(e) => is_key_setup_failure(e),
            },
        },
{
    let (master_key, old_auth_key) = match open_master_key(
        old_pw,
        old_salt,
        encrypted_master_key,
        derived_encryption_key_alg,
    ) {
        Ok(opened) => opened,
        Err(e) => { return Err(e); },
    };
    match random_bytes(DERIVE_ENTROPY_LENGTH) {
        Some(entropy) => change_password_of(
            new_pw,
            &master_key,
            &old_auth_key,
            entropy.as_slice(),
        ),
        None => Err(Error::KeyCreationFailed),
    }
}

/// What setting a new password for keys at hand makes: the new master
/// key, the two keys wrapped under it, and what was derived from the
/// password.
pub struct Reset {
    pub master_key: Seq<u8>,
    pub wrapped: WrappedPrivateKeys,
    pub derived: Derived,
}

/// What `reset_password_with` makes of its arguments.
///
/// The first random bytes are the new master key. The two keys are
/// wrapped under it, and it is encrypted under a key of the password.
pub open spec fn password_reset(
    password: Seq<u8>,
    private_key: Seq<u8>,
    sign_key: Seq<u8>,
    entropy: Seq<u8>,
) -> Result<Reset, Error> {
    if entropy.len() != RESET_ENTROPY_LENGTH {
        Err(Error::KeyCreationFailed)
    } else {
        let master_key = entropy.subrange(0, 32);
        match private_keys_wrapped(master_key, private_key, sign_key, entropy.subrange(32, 56)) {
            Err(e) => Err(e),
            Ok(wrapped) => match derived(password, master_key, entropy.subrange(56, 84)) {
                Err(e) => Err(e),
                Ok(derived) => Ok(Reset { master_key, wrapped, derived }),
            },
        }
    }
}

/// Whether `data` is what a client sends for the reset `reset`.
pub open spec fn is_reset_password_data(data: ResetPasswordData, reset: Reset) -> bool {
    &&& data.client_random_value@ == base64_text(reset.derived.client_random_value)
    &&& data.hashed_authentication_key@ == base64_text(reset.derived.hashed_authentication_key)
    &&& data.master_key.master_key_alg@ == AES_GCM_OUTPUT@
    &&& data.master_key.encrypted_master_key@ == base64_text(reset.derived.encrypted_master_key)
    &&& data.master_key.encrypted_master_key_alg@ == ARGON_2_OUTPUT@
    &&& data.derived_alg@ == ARGON_2_OUTPUT@
    &&& data.encrypted_private_key@ == base64_text(reset.wrapped.private_key)
    &&& data.encrypted_sign_key@ == base64_text(reset.wrapped.sign_key)
}

/// Sets a new password for keys that are at hand, with the random bytes
/// `entropy`: makes a new master key, wraps the two private keys under it
/// and encrypts it under a key of the new password.
///
/// The result is a function of the arguments. Fails with
/// `KeyCreationFailed` where `entropy` has not as many bytes as this
/// takes, with `EncryptionFailed` where a cipher refuses its input, and as
/// the key derivation does. The new password opens the result: it reaches
/// a master key that unwraps the two keys that were given.
pub fn reset_password_with(
    new_password: &str,
    decrypted_private_key: &PrivateKeyFormatInt,
    decrypted_sign_key: &SignKeyFormatInt,
    entropy: &[u8],
) -> (res: Result<ResetPasswordData, Error>)
    ensures
        match password_reset(
            new_password.spec_bytes(),
            decrypted_private_key.key.bytes(),
            decrypted_sign_key.key.bytes(),
            entropy@,
        ) {
            Ok(reset) => res matches Ok(data) && is_reset_password_data(data, reset),
            Err(e) => res == Err::<ResetPasswordData, Error>(e),
        },
        res matches Ok(data) ==> reset_opens(
            data,
            new_password.spec_bytes(),
            decrypted_private_key@,
            decrypted_sign_key@,
        ),
        res matches Err(e) ==> is_key_setup_failure(e),
{
    if entropy.len() != RESET_ENTROPY_LENGTH {
        return Err(Error::KeyCreationFailed);
    }
    let master_key = match to_array::<32>(slice_subrange(entropy, 0, 32)) {
        Some(key) => SymmetricKey::Aes(key),
        None => { return Err(Error::KeyCreationFailed); },
    };
    let (wrapped_private_key, wrapped_sign_key) = match wrap_private_keys(
        &master_key,
        decrypted_private_key.key.as_bytes(),
        decrypted_sign_key.key.as_bytes(),
        slice_subrange(entropy, 32, 56),
    ) {
        Ok(wrapped) => wrapped,
        Err(e) => { return Err(e); },
    };
    let derived = match derived_keys_with_entropy(
        new_password.as_bytes(),
        &master_key,
        slice_subrange(entropy, 56, 84),
    ) {
        Ok(derived) => derived,
        Err(e) => { return Err(e); },
    };
    let data = ResetPasswordData {
        client_random_value: base64_encode(derived.client_random_value.as_bytes()),
        hashed_authentication_key: base64_encode(derived.hashed_authentication_key.as_bytes()),
        master_key: master_key_data(&derived),
        derived_alg: String::from_str(derived.alg),
        encrypted_private_key: base64_encode(wrapped_private_key.as_slice()),
        encrypted_sign_key: base64_encode(wrapped_sign_key.as_slice()),
    };
    proof {
        assert(derived_opens(new_password.spec_bytes(), derived.derived(), master_key.bytes()));
        assert(password_opens(
            new_password.spec_bytes(),
            data.derived_alg@,
            data.client_random_value@,
            data.hashed_authentication_key@,
            data.master_key.encrypted_master_key@,
            master_key.bytes(),
        ));
        assert(reset_keys_open(
            data,
            master_key.bytes(),
            decrypted_private_key@,
            decrypted_sign_key@,
        ));
    }
    Ok(data)
}

/// Sets a new password for keys that are at hand: makes a new master key,
/// wraps the two private keys under it and encrypts it under a key of
/// the new password.
///
/// Fails with `KeyCreationFailed` where the system gives no random
/// bytes, and as `reset_password_with` does, which says what is made of
/// them. The new password opens the result: it reaches a master key that
/// unwraps the two keys that were given.
pub fn reset_password(
    new_password: &str,
    decrypted_private_key: &PrivateKeyFormatInt,
    decrypted_sign_key: &SignKeyFormatInt,
) -> (res: Result<ResetPasswordData, Error>)
    ensures
        res matches Ok(data) ==> reset_opens(
            data,
            new_password.spec_bytes(),
            decrypted_private_key@,
            decrypted_sign_key@,
        ),
        res matches Err(e) ==> is_key_setup_failure(e),
{
    match random_bytes(RESET_ENTROPY_LENGTH) {
        Some(entropy) => reset_password_with(
            new_password,
            decrypted_private_key,
            decrypted_sign_key,
            entropy.as_slice(),
        ),
        None => Err(Error::KeyCreationFailed),
    }
}

/// Asks the server to change the identifier of the user.
pub fn prepare_user_identifier_update(user_identifier: String) -> (res: Result<
    ChangeUserIdentifierInput,
    Error,
>)
    ensures
        res matches Ok(input) && input.user_identifier == user_identifier,
{
    Ok(ChangeUserIdentifierInput { user_identifier })
}

/// Asks the server for a new token.
pub fn prepare_refresh_jwt(refresh_token: String) -> (res: Result<JwtRefreshInput, Error>)
    ensures
        res matches Ok(input) && input.refresh_token == refresh_token,
{
    Ok(JwtRefreshInput { refresh_token })
}

impl MasterKeyFormat {
    /// The Base64 text of the key.
    pub open spec fn key_text(self) -> Seq<char> {
        match self {
            MasterKeyFormat::Argon2(text) => text@,
        }
    }

    /// The JSON text of this format: an object with the tag of the key
    /// derivation as its only member, which holds the Base64 text.
    pub open spec fn text(self) -> Seq<char> {
        "{\"Argon2\":"@ + json_quoted(self.key_text()) + "}"@
    }

    /// What reading a JSON document gives: the Base64 text of the key.
    pub open spec fn parsed(document: Seq<u8>) -> Option<Seq<char>> {
        match json_value_at(document, "/Argon2"@) {
            JsonNodeView::Text(text) => Some(text),
            _ => None,
        }
    }

    /// Writes this format as JSON text.
    pub fn to_string(&self) -> (text: String)
        ensures
            text@ == self.text(),
    {
        match self {
            MasterKeyFormat::Argon2(key) => {
                let mut text = String::from_str("{\"Argon2\":");
                let quoted = json_quote(key.as_str());
                text.append(quoted.as_str());
                text.append("}");
                text
            },
        }
    }

    /// Reads this format from JSON text.
    ///
    /// Fails with `JsonParseFailed` where the text is no JSON or has no
    /// string under the tag of the key derivation.
    pub fn from_string(v: &str) -> (res: Result<MasterKeyFormat, Error>)
        ensures
            match res {
                Ok(format) => Self::parsed(v.spec_bytes()) == Some(format.key_text()),
                Err(e) => e == Error::JsonParseFailed && Self::parsed(v.spec_bytes()) is None,
            },
    {
        match json_lookup(v.as_bytes(), "/Argon2") {
            JsonNode::Text(text) => Ok(MasterKeyFormat::Argon2(text)),
            _ => Err(Error::JsonParseFailed),
        }
    }

    /// What importing this format gives.
    pub open spec fn imported(self) -> Result<Seq<u8>, Error> {
        match self {
            MasterKeyFormat::Argon2(text) => match base64_bytes(text@) {
                Some(bytes) => if bytes.len() == AES_KEY_LENGTH {
                    Ok(bytes)
                } else {
                    Err(Error::KeyDecryptFailed)
                },
                None => Err(Error::KeyDecryptFailed),
            },
        }
    }
}

/// Exports the key for the master key, so that an application can keep
/// it between the two steps of a login. Importing the result gives the
/// key back.
pub fn export_master_key_encryption_key(key: &DeriveMasterKeyForAuth) -> (res: MasterKeyFormat)
    ensures
        res.imported() == Ok::<Seq<u8>, Error>(key.bytes()),
{
    MasterKeyFormat::Argon2(base64_encode(key.as_bytes()))
}

/// Imports the key for the master key.
///
/// Fails with `KeyDecryptFailed` where the text is no Base64 or does not
/// hold as many bytes as the key has.
pub fn import_master_key_encryption_key(key: &MasterKeyFormat) -> (res: Result<
    DeriveMasterKeyForAuth,
    Error,
>)
    ensures
        match res {
            Ok(imported) => key.imported() == Ok::<Seq<u8>, Error>(imported.bytes()),
            Err(e) => key.imported() == Err::<Seq<u8>, Error>(e),
        },
{
    match key {
        MasterKeyFormat::Argon2(text) => match base64_decode(text.as_str()) {
            Some(bytes) => match to_array::<32>(bytes.as_slice()) {
                Some(key) => Ok(DeriveMasterKeyForAuth::Argon2(key)),
                None => Err(Error::KeyDecryptFailed),
            },
            None => Err(Error::KeyDecryptFailed),
        },
    }
}

} // verus!
