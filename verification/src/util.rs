//! Keys with their identifiers, and the formats in which keys travel.
//!
//! Inside the library a key is typed raw material together with the
//! identifier that the server gave it. For storage and transport a key is
//! exported: the raw material as Base64 text, beside the identifier, under
//! the tag of its algorithm. Importing checks the text and its length, so
//! that no other part of the library meets a malformed key.

use vstd::prelude::*;
use vstd::string::*;

use crate::alg::asym::{PublicKey, SecretKey, ECIES_OUTPUT};
use crate::alg::sign::{SignKey, VerifyKey, ED25519_OUTPUT};
use crate::alg::sym::{SymmetricKey, AES_GCM_OUTPUT};
use crate::bytes::to_array;
use crate::encoding::{
    base64_bytes, base64_decode, base64_encode, base64_text, json_lookup, json_quote, json_quoted,
    json_value_at, pem_bytes, pem_decode, pem_encode, pem_text, JsonNode, JsonNodeView,
    PEM_LABEL,
};
use crate::error::Error;

verus! {

/// Length of the raw material of every kind of key that is exported.
pub const RAW_KEY_LENGTH: usize = 32;

/// What a key is: its algorithm tag, its raw material and its identifier.
pub struct KeyView {
    pub alg: Seq<char>,
    pub bytes: Seq<u8>,
    pub id: Seq<char>,
}

/// The raw material that importing reads from the Base64 text `text`, or
/// the failure `failure` where the text is no Base64 or does not hold as
/// many bytes as a key has.
pub open spec fn raw_key_imported(text: Seq<char>, failure: Error) -> Result<Seq<u8>, Error> {
    match base64_bytes(text) {
        Some(bytes) => if bytes.len() == RAW_KEY_LENGTH {
            Ok(bytes)
        } else {
            Err(failure)
        },
        None => Err(failure),
    }
}

fn import_raw_key(text: &str, failure: Error) -> (res: Result<[u8; 32], Error>)
    ensures
        match res {
            Ok(key) => raw_key_imported(text@, failure) == Ok::<Seq<u8>, Error>(key@),
            Err(e) => raw_key_imported(text@, failure) == Err::<Seq<u8>, Error>(e),
        },
{
    match base64_decode(text) {
        Some(bytes) => match to_array::<32>(bytes.as_slice()) {
            Some(key) => Ok(key),
            None => Err(failure),
        },
        None => Err(failure),
    }
}

/// A symmetric key with its identifier.
#[derive(Debug, Clone, PartialEq, Eq)]
pub struct SymKeyFormatInt {
    pub key: SymmetricKey,
    pub key_id: String,
}

/// A symmetric key as it is stored and sent: the raw material as Base64 text and
/// the identifier, under the tag of the algorithm.
#[derive(Debug, Clone, PartialEq, Eq)]
pub enum SymKeyFormat {
    Aes { key: String, key_id: String },
}

impl View for SymKeyFormatInt {
    type V = KeyView;

    open spec fn view(&self) -> KeyView {
        KeyView { alg: self.key.alg(), bytes: self.key.bytes(), id: self.key_id@ }
    }
}

impl SymKeyFormatInt {
    /// What a result that holds a key holds.
    pub open spec fn result_view(res: Result<SymKeyFormatInt, Error>) -> Result<KeyView, Error> {
        match res {
            Ok(key) => Ok(key@),
            Err(e) => Err(e),
        }
    }
}

impl SymKeyFormat {
    /// The Base64 text of the raw material.
    pub open spec fn key_text(self) -> Seq<char> {
        match self {
            SymKeyFormat::Aes { key, key_id } => key@,
        }
    }

    /// The identifier of the key.
    pub open spec fn id(self) -> Seq<char> {
        match self {
            SymKeyFormat::Aes { key, key_id } => key_id@,
        }
    }

    /// The algorithm tag of the key.
    pub open spec fn alg(self) -> Seq<char> {
        match self {
            SymKeyFormat::Aes { key, key_id } => AES_GCM_OUTPUT@,
        }
    }

    /// What importing this format gives.
    pub open spec fn imported(self) -> Result<KeyView, Error> {
        match raw_key_imported(self.key_text(), Error::ImportSymmetricKeyFailed) {
            Ok(bytes) => Ok(KeyView { alg: self.alg(), bytes, id: self.id() }),
            Err(e) => Err(e),
        }
    }
}

/// Imports a symmetric key from its exported format.
///
/// Fails with `ImportSymmetricKeyFailed` where the text of the key is no Base64
/// or does not hold as many bytes as a symmetric key has.
pub fn import_sym_key_from_format(key: &SymKeyFormat) -> (res: Result<SymKeyFormatInt, Error>)
    ensures
        SymKeyFormatInt::result_view(res) == key.imported(),
{
    match key {
        SymKeyFormat::Aes { key, key_id } => {
            match import_raw_key(key.as_str(), Error::ImportSymmetricKeyFailed) {
                Ok(bytes) => Ok(
                    SymKeyFormatInt { key: SymmetricKey::Aes(bytes), key_id: key_id.clone() },
                ),
                Err(e) => Err(e),
            }
        },
    }
}

/// Exports a symmetric key. Importing the result gives the key back: the same
/// algorithm tag, the same raw material and the same identifier.
pub fn export_sym_key(key: SymKeyFormatInt) -> (res: SymKeyFormat)
    ensures
        res.key_text() == base64_text(key.key.bytes()),
        res.id() == key.key_id@,
        res.imported() == Ok::<KeyView, Error>(key@),
{
    match key.key {
        SymmetricKey::Aes(bytes) => {
            let text = base64_encode(bytes.as_slice());
            SymKeyFormat::Aes { key: text, key_id: key.key_id }
        },
    }
}

/// A private key with its identifier.
#[derive(Debug, Clone, PartialEq, Eq)]
pub struct PrivateKeyFormatInt {
    pub key: SecretKey,
    pub key_id: String,
}

/// A private key as it is stored and sent: the raw material as Base64 text and
/// the identifier, under the tag of the algorithm.
#[derive(Debug, Clone, PartialEq, Eq)]
pub enum PrivateKeyFormat {
    Ecies { key: String, key_id: String },
}

impl View for PrivateKeyFormatInt {
    type V = KeyView;

    open spec fn view(&self) -> KeyView {
        KeyView { alg: self.key.alg(), bytes: self.key.bytes(), id: self.key_id@ }
    }
}

impl PrivateKeyFormatInt {
    /// What a result that holds a key holds.
    pub open spec fn result_view(res: Result<PrivateKeyFormatInt, Error>) -> Result<
        KeyView,
        Error,
    > {
        match res {
            Ok(key) => Ok(key@),
            Err(e) => Err(e),
        }
    }
}

impl PrivateKeyFormat {
    /// The Base64 text of the raw material.
    pub open spec fn key_text(self) -> Seq<char> {
        match self {
            PrivateKeyFormat::Ecies { key, key_id } => key@,
        }
    }

    /// The identifier of the key.
    pub open spec fn id(self) -> Seq<char> {
        match self {
            PrivateKeyFormat::Ecies { key, key_id } => key_id@,
        }
    }

    /// The algorithm tag of the key.
    pub open spec fn alg(self) -> Seq<char> {
        match self {
            PrivateKeyFormat::Ecies { key, key_id } => ECIES_OUTPUT@,
        }
    }

    /// What importing this format gives.
    pub open spec fn imported(self) -> Result<KeyView, Error> {
        match raw_key_imported(self.key_text(), Error::ImportingPrivateKeyFailed) {
            Ok(bytes) => Ok(KeyView { alg: self.alg(), bytes, id: self.id() }),
            Err(e) => Err(e),
        }
    }
}

/// Imports a private key from its exported format.
///
/// Fails with `ImportingPrivateKeyFailed` where the text of the key is no Base64
/// or does not hold as many bytes as a private key has.
pub fn import_private_key_from_format(key: &PrivateKeyFormat) -> (res: Result<
    PrivateKeyFormatInt,
    Error,
>)
    ensures
        PrivateKeyFormatInt::result_view(res) == key.imported(),
{
    match key {
        PrivateKeyFormat::Ecies { key, key_id } => {
            match import_raw_key(key.as_str(), Error::ImportingPrivateKeyFailed) {
                Ok(bytes) => Ok(
                    PrivateKeyFormatInt { key: SecretKey::Ecies(bytes), key_id: key_id.clone() },
                ),
                Err(e) => Err(e),
            }
        },
    }
}

/// Exports a private key. Importing the result gives the key back: the same
/// algorithm tag, the same raw material and the same identifier.
pub fn export_private_key(key: PrivateKeyFormatInt) -> (res: PrivateKeyFormat)
    ensures
        res.key_text() == base64_text(key.key.bytes()),
        res.id() == key.key_id@,
        res.imported() == Ok::<KeyView, Error>(key@),
{
    match key.key {
        SecretKey::Ecies(bytes) => {
            let text = base64_encode(bytes.as_slice());
            PrivateKeyFormat::Ecies { key: text, key_id: key.key_id }
        },
    }
}

/// A public key with its identifier.
#[derive(Debug, Clone, PartialEq, Eq)]
pub struct PublicKeyFormatInt {
    pub key: PublicKey,
    pub key_id: String,
}

/// A public key as it is stored and sent: the raw material as Base64 text and
/// the identifier, under the tag of the algorithm.
#[derive(Debug, Clone, PartialEq, Eq)]
pub enum PublicKeyFormat {
    Ecies { key: String, key_id: String },
}

impl View for PublicKeyFormatInt {
    type V = KeyView;

    open spec fn view(&self) -> KeyView {
        KeyView { alg: self.key.alg(), bytes: self.key.bytes(), id: self.key_id@ }
    }
}

impl PublicKeyFormatInt {
    /// What a result that holds a key holds.
    pub open spec fn result_view(res: Result<PublicKeyFormatInt, Error>) -> Result<KeyView, Error> {
        match res {
            Ok(key) => Ok(key@),
            Err(e) => Err(e),
        }
    }
}

impl PublicKeyFormat {
    /// The Base64 text of the raw material.
    pub open spec fn key_text(self) -> Seq<char> {
        match self {
            PublicKeyFormat::Ecies { key, key_id } => key@,
        }
    }

    /// The identifier of the key.
    pub open spec fn id(self) -> Seq<char> {
        match self {
            PublicKeyFormat::Ecies { key, key_id } => key_id@,
        }
    }

    /// The algorithm tag of the key.
    pub open spec fn alg(self) -> Seq<char> {
        match self {
            PublicKeyFormat::Ecies { key, key_id } => ECIES_OUTPUT@,
        }
    }

    /// What importing this format gives.
    pub open spec fn imported(self) -> Result<KeyView, Error> {
        match raw_key_imported(self.key_text(), Error::ImportPublicKeyFailed) {
            Ok(bytes) => Ok(KeyView { alg: self.alg(), bytes, id: self.id() }),
            Err(e) => Err(e),
        }
    }
}

/// Imports a public key from its exported format.
///
/// Fails with `ImportPublicKeyFailed` where the text of the key is no Base64
/// or does not hold as many bytes as a public key has.
pub fn import_public_key_from_format(key: &PublicKeyFormat) -> (res: Result<
    PublicKeyFormatInt,
    Error,
>)
    ensures
        PublicKeyFormatInt::result_view(res) == key.imported(),
{
    match key {
        PublicKeyFormat::Ecies { key, key_id } => {
            match import_raw_key(key.as_str(), Error::ImportPublicKeyFailed) {
                Ok(bytes) => Ok(
                    PublicKeyFormatInt { key: PublicKey::Ecies(bytes), key_id: key_id.clone() },
                ),
                Err(e) => Err(e),
            }
        },
    }
}

/// Exports a public key. Importing the result gives the key back: the same
/// algorithm tag, the same raw material and the same identifier.
pub fn export_public_key(key: PublicKeyFormatInt) -> (res: PublicKeyFormat)
    ensures
        res.key_text() == base64_text(key.key.bytes()),
        res.id() == key.key_id@,
        res.imported() == Ok::<KeyView, Error>(key@),
{
    match key.key {
        PublicKey::Ecies(bytes) => {
            let text = base64_encode(bytes.as_slice());
            PublicKeyFormat::Ecies { key: text, key_id: key.key_id }
        },
    }
}

/// A signing key with its identifier.
#[derive(Debug, Clone, PartialEq, Eq)]
pub struct SignKeyFormatInt {
    pub key: SignKey,
    pub key_id: String,
}

/// A signing key as it is stored and sent: the raw material as Base64 text and
/// the identifier, under the tag of the algorithm.
#[derive(Debug, Clone, PartialEq, Eq)]
pub enum SignKeyFormat {
    Ed25519 { key: String, key_id: String },
}

impl View for SignKeyFormatInt {
    type V = KeyView;

    open spec fn view(&self) -> KeyView {
        KeyView { alg: self.key.alg(), bytes: self.key.bytes(), id: self.key_id@ }
    }
}

impl SignKeyFormatInt {
    /// What a result that holds a key holds.
    pub open spec fn result_view(res: Result<SignKeyFormatInt, Error>) -> Result<KeyView, Error> {
        match res {
            Ok(key) => Ok(key@),
            Err(e) => Err(e),
        }
    }
}

impl SignKeyFormat {
    /// The Base64 text of the raw material.
    pub open spec fn key_text(self) -> Seq<char> {
        match self {
            SignKeyFormat::Ed25519 { key, key_id } => key@,
        }
    }

    /// The identifier of the key.
    pub open spec fn id(self) -> Seq<char> {
        match self {
            SignKeyFormat::Ed25519 { key, key_id } => key_id@,
        }
    }

    /// The algorithm tag of the key.
    pub open spec fn alg(self) -> Seq<char> {
        match self {
            SignKeyFormat::Ed25519 { key, key_id } => ED25519_OUTPUT@,
        }
    }

    /// What importing this format gives.
    pub open spec fn imported(self) -> Result<KeyView, Error> {
        match raw_key_imported(self.key_text(), Error::ImportingSignKeyFailed) {
            Ok(bytes) => Ok(KeyView { alg: self.alg(), bytes, id: self.id() }),
            Err(e) => Err(e),
        }
    }
}

/// Imports a signing key from its exported format.
///
/// Fails with `ImportingSignKeyFailed` where the text of the key is no Base64
/// or does not hold as many bytes as a signing key has.
pub fn import_sign_key_from_format(key: &SignKeyFormat) -> (res: Result<SignKeyFormatInt, Error>)
    ensures
        SignKeyFormatInt::result_view(res) == key.imported(),
{
    match key {
        SignKeyFormat::Ed25519 { key, key_id } => {
            match import_raw_key(key.as_str(), Error::ImportingSignKeyFailed) {
                Ok(bytes) => Ok(
                    SignKeyFormatInt { key: SignKey::Ed25519(bytes), key_id: key_id.clone() },
                ),
                Err(e) => Err(e),
            }
        },
    }
}

/// Exports a signing key. Importing the result gives the key back: the same
/// algorithm tag, the same raw material and the same identifier.
pub fn export_sign_key(key: SignKeyFormatInt) -> (res: SignKeyFormat)
    ensures
        res.key_text() == base64_text(key.key.bytes()),
        res.id() == key.key_id@,
        res.imported() == Ok::<KeyView, Error>(key@),
{
    match key.key {
        SignKey::Ed25519(bytes) => {
            let text = base64_encode(bytes.as_slice());
            SignKeyFormat::Ed25519 { key: text, key_id: key.key_id }
        },
    }
}

/// A verification key with its identifier.
#[derive(Debug, Clone, PartialEq, Eq)]
pub struct VerifyKeyFormatInt {
    pub key: VerifyKey,
    pub key_id: String,
}

/// A verification key as it is stored and sent: the raw material as Base64 text and
/// the identifier, under the tag of the algorithm.
#[derive(Debug, Clone, PartialEq, Eq)]
pub enum VerifyKeyFormat {
    Ed25519 { key: String, key_id: String },
}

impl View for VerifyKeyFormatInt {
    type V = KeyView;

    open spec fn view(&self) -> KeyView {
        KeyView { alg: self.key.alg(), bytes: self.key.bytes(), id: self.key_id@ }
    }
}

impl VerifyKeyFormatInt {
    /// What a result that holds a key holds.
    pub open spec fn result_view(res: Result<VerifyKeyFormatInt, Error>) -> Result<KeyView, Error> {
        match res {
            Ok(key) => Ok(key@),
            Err(e) => Err(e),
        }
    }
}

impl VerifyKeyFormat {
    /// The Base64 text of the raw material.
    pub open spec fn key_text(self) -> Seq<char> {
        match self {
            VerifyKeyFormat::Ed25519 { key, key_id } => key@,
        }
    }

    /// The identifier of the key.
    pub open spec fn id(self) -> Seq<char> {
        match self {
            VerifyKeyFormat::Ed25519 { key, key_id } => key_id@,
        }
    }

    /// The algorithm tag of the key.
    pub open spec fn alg(self) -> Seq<char> {
        match self {
            VerifyKeyFormat::Ed25519 { key, key_id } => ED25519_OUTPUT@,
        }
    }

    /// What importing this format gives.
    pub open spec fn imported(self) -> Result<KeyView, Error> {
        match raw_key_imported(self.key_text(), Error::ImportingKeyFromPemFailed) {
            Ok(bytes) => Ok(KeyView { alg: self.alg(), bytes, id: self.id() }),
            Err(e) => Err(e),
        }
    }
}

/// Imports a verification key from its exported format.
///
/// Fails with `ImportingKeyFromPemFailed` where the text of the key is no Base64
/// or does not hold as many bytes as a verification key has.
pub fn import_verify_key_from_format(key: &VerifyKeyFormat) -> (res: Result<
    VerifyKeyFormatInt,
    Error,
>)
    ensures
        VerifyKeyFormatInt::result_view(res) == key.imported(),
{
    match key {
        VerifyKeyFormat::Ed25519 { key, key_id } => {
            match import_raw_key(key.as_str(), Error::ImportingKeyFromPemFailed) {
                Ok(bytes) => Ok(
                    VerifyKeyFormatInt { key: VerifyKey::Ed25519(bytes), key_id: key_id.clone() },
                ),
                Err(e) => Err(e),
            }
        },
    }
}

/// Exports a verification key. Importing the result gives the key back: the same
/// algorithm tag, the same raw material and the same identifier.
pub fn export_verify_key(key: VerifyKeyFormatInt) -> (res: VerifyKeyFormat)
    ensures
        res.key_text() == base64_text(key.key.bytes()),
        res.id() == key.key_id@,
        res.imported() == Ok::<KeyView, Error>(key@),
{
    match key.key {
        VerifyKey::Ed25519(bytes) => {
            let text = base64_encode(bytes.as_slice());
            VerifyKeyFormat::Ed25519 { key: text, key_id: key.key_id }
        },
    }
}

/// The JSON text of an exported key: an object with the algorithm tag as
/// its only member, which holds the Base64 text of the key and the
/// identifier. `opening` is the text up to the Base64 text.
pub open spec fn tagged_key_text(opening: Seq<char>, key: Seq<char>, key_id: Seq<char>) -> Seq<
    char,
> {
    opening + json_quoted(key) + ",\"key_id\":"@ + json_quoted(key_id) + "}}"@
}

/// The Base64 text of the key and the identifier that a JSON document
/// holds at the two places that the pointers name: both must be strings.
pub open spec fn tagged_key_parsed(
    document: Seq<u8>,
    key_pointer: Seq<char>,
    id_pointer: Seq<char>,
) -> Option<(Seq<char>, Seq<char>)> {
    match (json_value_at(document, key_pointer), json_value_at(document, id_pointer)) {
        (JsonNodeView::Text(key), JsonNodeView::Text(key_id)) => Some((key, key_id)),
        _ => None,
    }
}

fn write_tagged_key(opening: &str, key: &str, key_id: &str) -> (text: String)
    ensures
        text@ == tagged_key_text(opening@, key@, key_id@),
{
    let mut text = String::from_str(opening);
    let quoted_key = json_quote(key);
    text.append(quoted_key.as_str());
    text.append(",\"key_id\":");
    let quoted_id = json_quote(key_id);
    text.append(quoted_id.as_str());
    text.append("}}");
    assert(text@ =~= tagged_key_text(opening@, key@, key_id@));
    text
}

fn read_tagged_key(document: &[u8], key_pointer: &str, id_pointer: &str) -> (res: Option<
    (String, String),
>)
    ensures
        match res {
            Some((key, key_id)) => tagged_key_parsed(document@, key_pointer@, id_pointer@) == Some(
                (key@, key_id@),
            ),
            None => tagged_key_parsed(document@, key_pointer@, id_pointer@) is None,
        },
{
    let key = match json_lookup(document, key_pointer) {
        JsonNode::Text(key) => key,
        _ => { return None; },
    };
    match json_lookup(document, id_pointer) {
        JsonNode::Text(key_id) => Some((key, key_id)),
        _ => None,
    }
}

/// The text in front of the Base64 text in the JSON text of a symmetric key.
pub const SYM_KEY_OPENING: &'static str = "{\"Aes\":{\"key\":";

/// The place of the Base64 text in the JSON text of a symmetric key.
pub const SYM_KEY_POINTER: &'static str = "/Aes/key";

/// The place of the identifier in the JSON text of a symmetric key.
pub const SYM_KEY_ID_POINTER: &'static str = "/Aes/key_id";

impl SymKeyFormat {
    /// The JSON text of this format.
    pub open spec fn text(self) -> Seq<char> {
        tagged_key_text(SYM_KEY_OPENING@, self.key_text(), self.id())
    }

    /// What reading a JSON document gives: the Base64 text of the key and
    /// the identifier.
    pub open spec fn parsed(document: Seq<u8>) -> Option<(Seq<char>, Seq<char>)> {
        tagged_key_parsed(document, SYM_KEY_POINTER@, SYM_KEY_ID_POINTER@)
    }

    /// What importing a JSON document gives.
    pub open spec fn imported_from(document: Seq<u8>) -> Result<KeyView, Error> {
        match Self::parsed(document) {
            None => Err(Error::ImportSymmetricKeyFailed),
            Some((key, key_id)) => match raw_key_imported(key, Error::ImportSymmetricKeyFailed) {
                Ok(bytes) => Ok(KeyView { alg: AES_GCM_OUTPUT@, bytes, id: key_id }),
                Err(e) => Err(e),
            },
        }
    }

    /// Writes this format as JSON text.
    pub fn to_string(&self) -> (text: String)
        ensures
            text@ == self.text(),
    {
        match self {
            SymKeyFormat::Aes { key, key_id } => write_tagged_key(
                SYM_KEY_OPENING,
                key.as_str(),
                key_id.as_str(),
            ),
        }
    }

    /// Reads this format from JSON text.
    ///
    /// Fails with `JsonParseFailed` where the text is no JSON, has not
    /// the tag of the algorithm, or lacks the key or the identifier.
    pub fn from_string(v: &[u8]) -> (res: Result<SymKeyFormat, Error>)
        ensures
            match res {
                Ok(format) => Self::parsed(v@) == Some((format.key_text(), format.id())),
                Err(e) => e == Error::JsonParseFailed && Self::parsed(v@) is None,
            },
    {
        match read_tagged_key(v, SYM_KEY_POINTER, SYM_KEY_ID_POINTER) {
            Some((key, key_id)) => Ok(SymKeyFormat::Aes { key, key_id }),
            None => Err(Error::JsonParseFailed),
        }
    }
}

/// Imports a symmetric key from its JSON text.
///
/// Fails with `ImportSymmetricKeyFailed` where the text is no JSON of
/// a symmetric key, as on an unknown algorithm tag, and as
/// `import_sym_key_from_format` does.
pub fn import_sym_key(key_string: &str) -> (res: Result<SymKeyFormatInt, Error>)
    ensures
        SymKeyFormatInt::result_view(res) == SymKeyFormat::imported_from(key_string.spec_bytes()),
{
    match SymKeyFormat::from_string(key_string.as_bytes()) {
        Ok(format) => import_sym_key_from_format(&format),
        Err(_) => Err(Error::ImportSymmetricKeyFailed),
    }
}

/// Exports a symmetric key to its JSON text. This does not fail.
pub fn export_sym_key_to_string(key: SymKeyFormatInt) -> (res: Result<String, Error>)
    ensures
        res matches Ok(text) && text@ == tagged_key_text(
            SYM_KEY_OPENING@,
            base64_text(key.key.bytes()),
            key.key_id@,
        ),
{
    let format = export_sym_key(key);
    Ok(format.to_string())
}

/// The text in front of the Base64 text in the JSON text of a private key.
pub const PRIVATE_KEY_OPENING: &'static str = "{\"Ecies\":{\"key\":";

/// The place of the Base64 text in the JSON text of a private key.
pub const PRIVATE_KEY_POINTER: &'static str = "/Ecies/key";

/// The place of the identifier in the JSON text of a private key.
pub const PRIVATE_KEY_ID_POINTER: &'static str = "/Ecies/key_id";

impl PrivateKeyFormat {
    /// The JSON text of this format.
    pub open spec fn text(self) -> Seq<char> {
        tagged_key_text(PRIVATE_KEY_OPENING@, self.key_text(), self.id())
    }

    /// What reading a JSON document gives: the Base64 text of the key and
    /// the identifier.
    pub open spec fn parsed(document: Seq<u8>) -> Option<(Seq<char>, Seq<char>)> {
        tagged_key_parsed(document, PRIVATE_KEY_POINTER@, PRIVATE_KEY_ID_POINTER@)
    }

    /// What importing a JSON document gives.
    pub open spec fn imported_from(document: Seq<u8>) -> Result<KeyView, Error> {
        match Self::parsed(document) {
            None => Err(Error::ImportingPrivateKeyFailed),
            Some((key, key_id)) => match raw_key_imported(key, Error::ImportingPrivateKeyFailed) {
                Ok(bytes) => Ok(KeyView { alg: ECIES_OUTPUT@, bytes, id: key_id }),
                Err(e) => Err(e),
            },
        }
    }

    /// Writes this format as JSON text.
    pub fn to_string(&self) -> (text: String)
        ensures
            text@ == self.text(),
    {
        match self {
            PrivateKeyFormat::Ecies { key, key_id } => write_tagged_key(
                PRIVATE_KEY_OPENING,
                key.as_str(),
                key_id.as_str(),
            ),
        }
    }

    /// Reads this format from JSON text.
    ///
    /// Fails with `JsonParseFailed` where the text is no JSON, has not
    /// the tag of the algorithm, or lacks the key or the identifier.
    pub fn from_string(v: &[u8]) -> (res: Result<PrivateKeyFormat, Error>)
        ensures
            match res {
                Ok(format) => Self::parsed(v@) == Some((format.key_text(), format.id())),
                Err(e) => e == Error::JsonParseFailed && Self::parsed(v@) is None,
            },
    {
        match read_tagged_key(v, PRIVATE_KEY_POINTER, PRIVATE_KEY_ID_POINTER) {
            Some((key, key_id)) => Ok(PrivateKeyFormat::Ecies { key, key_id }),
            None => Err(Error::JsonParseFailed),
        }
    }
}

/// Imports a private key from its JSON text.
///
/// Fails with `ImportingPrivateKeyFailed` where the text is no JSON of
/// a private key, as on an unknown algorithm tag, and as
/// `import_private_key_from_format` does.
pub fn import_private_key(key_string: &str) -> (res: Result<PrivateKeyFormatInt, Error>)
    ensures
        PrivateKeyFormatInt::result_view(res) == PrivateKeyFormat::imported_from(
            key_string.spec_bytes(),
        ),
{
    match PrivateKeyFormat::from_string(key_string.as_bytes()) {
        Ok(format) => import_private_key_from_format(&format),
        Err(_) => Err(Error::ImportingPrivateKeyFailed),
    }
}

/// Exports a private key to its JSON text. This does not fail.
pub fn export_private_key_to_string(key: PrivateKeyFormatInt) -> (res: Result<String, Error>)
    ensures
        res matches Ok(text) && text@ == tagged_key_text(
            PRIVATE_KEY_OPENING@,
            base64_text(key.key.bytes()),
            key.key_id@,
        ),
{
    let format = export_private_key(key);
    Ok(format.to_string())
}

/// The text in front of the Base64 text in the JSON text of a public key.
pub const PUBLIC_KEY_OPENING: &'static str = "{\"Ecies\":{\"key\":";

/// The place of the Base64 text in the JSON text of a public key.
pub const PUBLIC_KEY_POINTER: &'static str = "/Ecies/key";

/// The place of the identifier in the JSON text of a public key.
pub const PUBLIC_KEY_ID_POINTER: &'static str = "/Ecies/key_id";

impl PublicKeyFormat {
    /// The JSON text of this format.
    pub open spec fn text(self) -> Seq<char> {
        tagged_key_text(PUBLIC_KEY_OPENING@, self.key_text(), self.id())
    }

    /// What reading a JSON document gives: the Base64 text of the key and
    /// the identifier.
    pub open spec fn parsed(document: Seq<u8>) -> Option<(Seq<char>, Seq<char>)> {
        tagged_key_parsed(document, PUBLIC_KEY_POINTER@, PUBLIC_KEY_ID_POINTER@)
    }

    /// What importing a JSON document gives.
    pub open spec fn imported_from(document: Seq<u8>) -> Result<KeyView, Error> {
        match Self::parsed(document) {
            None => Err(Error::ImportPublicKeyFailed),
            Some((key, key_id)) => match raw_key_imported(key, Error::ImportPublicKeyFailed) {
                Ok(bytes) => Ok(KeyView { alg: ECIES_OUTPUT@, bytes, id: key_id }),
                Err(e) => Err(e),
            },
        }
    }

    /// Writes this format as JSON text.
    pub fn to_string(&self) -> (text: String)
        ensures
            text@ == self.text(),
    {
        match self {
            PublicKeyFormat::Ecies { key, key_id } => write_tagged_key(
                PUBLIC_KEY_OPENING,
                key.as_str(),
                key_id.as_str(),
            ),
        }
    }

    /// Reads this format from JSON text.
    ///
    /// Fails with `JsonParseFailed` where the text is no JSON, has not
    /// the tag of the algorithm, or lacks the key or the identifier.
    pub fn from_string(v: &[u8]) -> (res: Result<PublicKeyFormat, Error>)
        ensures
            match res {
                Ok(format) => Self::parsed(v@) == Some((format.key_text(), format.id())),
                Err(e) => e == Error::JsonParseFailed && Self::parsed(v@) is None,
            },
    {
        match read_tagged_key(v, PUBLIC_KEY_POINTER, PUBLIC_KEY_ID_POINTER) {
            Some((key, key_id)) => Ok(PublicKeyFormat::Ecies { key, key_id }),
            None => Err(Error::JsonParseFailed),
        }
    }
}

/// Imports a public key from its JSON text.
///
/// Fails with `ImportPublicKeyFailed` where the text is no JSON of
/// a public key, as on an unknown algorithm tag, and as
/// `import_public_key_from_format` does.
pub fn import_public_key(key_string: &str) -> (res: Result<PublicKeyFormatInt, Error>)
    ensures
        PublicKeyFormatInt::result_view(res) == PublicKeyFormat::imported_from(
            key_string.spec_bytes(),
        ),
{
    match PublicKeyFormat::from_string(key_string.as_bytes()) {
        Ok(format) => import_public_key_from_format(&format),
        Err(_) => Err(Error::ImportPublicKeyFailed),
    }
}

/// Exports a public key to its JSON text. This does not fail.
pub fn export_public_key_to_string(key: PublicKeyFormatInt) -> (res: Result<String, Error>)
    ensures
        res matches Ok(text) && text@ == tagged_key_text(
            PUBLIC_KEY_OPENING@,
            base64_text(key.key.bytes()),
            key.key_id@,
        ),
{
    let format = export_public_key(key);
    Ok(format.to_string())
}

/// The text in front of the Base64 text in the JSON text of a signing key.
pub const SIGN_KEY_OPENING: &'static str = "{\"Ed25519\":{\"key\":";

/// The place of the Base64 text in the JSON text of a signing key.
pub const SIGN_KEY_POINTER: &'static str = "/Ed25519/key";

/// The place of the identifier in the JSON text of a signing key.
pub const SIGN_KEY_ID_POINTER: &'static str = "/Ed25519/key_id";

impl SignKeyFormat {
    /// The JSON text of this format.
    pub open spec fn text(self) -> Seq<char> {
        tagged_key_text(SIGN_KEY_OPENING@, self.key_text(), self.id())
    }

    /// What reading a JSON document gives: the Base64 text of the key and
    /// the identifier.
    pub open spec fn parsed(document: Seq<u8>) -> Option<(Seq<char>, Seq<char>)> {
        tagged_key_parsed(document, SIGN_KEY_POINTER@, SIGN_KEY_ID_POINTER@)
    }

    /// What importing a JSON document gives.
    pub open spec fn imported_from(document: Seq<u8>) -> Result<KeyView, Error> {
        match Self::parsed(document) {
            None => Err(Error::ImportingSignKeyFailed),
            Some((key, key_id)) => match raw_key_imported(key, Error::ImportingSignKeyFailed) {
                Ok(bytes) => Ok(KeyView { alg: ED25519_OUTPUT@, bytes, id: key_id }),
                Err(e) => Err(e),
            },
        }
    }

    /// Writes this format as JSON text.
    pub fn to_string(&self) -> (text: String)
        ensures
            text@ == self.text(),
    {
        match self {
            SignKeyFormat::Ed25519 { key, key_id } => write_tagged_key(
                SIGN_KEY_OPENING,
                key.as_str(),
                key_id.as_str(),
            ),
        }
    }

    /// Reads this format from JSON text.
    ///
    /// Fails with `JsonParseFailed` where the text is no JSON, has not
    /// the tag of the algorithm, or lacks the key or the identifier.
    pub fn from_string(v: &[u8]) -> (res: Result<SignKeyFormat, Error>)
        ensures
            match res {
                Ok(format) => Self::parsed(v@) == Some((format.key_text(), format.id())),
                Err(e) => e == Error::JsonParseFailed && Self::parsed(v@) is None,
            },
    {
        match read_tagged_key(v, SIGN_KEY_POINTER, SIGN_KEY_ID_POINTER) {
            Some((key, key_id)) => Ok(SignKeyFormat::Ed25519 { key, key_id }),
            None => Err(Error::JsonParseFailed),
        }
    }
}

/// Imports a signing key from its JSON text.
///
/// Fails with `ImportingSignKeyFailed` where the text is no JSON of
/// a signing key, as on an unknown algorithm tag, and as
/// `import_sign_key_from_format` does.
pub fn import_sign_key(key_string: &str) -> (res: Result<SignKeyFormatInt, Error>)
    ensures
        SignKeyFormatInt::result_view(res) == SignKeyFormat::imported_from(key_string.spec_bytes()),
{
    match SignKeyFormat::from_string(key_string.as_bytes()) {
        Ok(format) => import_sign_key_from_format(&format),
        Err(_) => Err(Error::ImportingSignKeyFailed),
    }
}

/// Exports a signing key to its JSON text. This does not fail.
pub fn export_sign_key_to_string(key: SignKeyFormatInt) -> (res: Result<String, Error>)
    ensures
        res matches Ok(text) && text@ == tagged_key_text(
            SIGN_KEY_OPENING@,
            base64_text(key.key.bytes()),
            key.key_id@,
        ),
{
    let format = export_sign_key(key);
    Ok(format.to_string())
}

/// The text in front of the Base64 text in the JSON text of a verification key.
pub const VERIFY_KEY_OPENING: &'static str = "{\"Ed25519\":{\"key\":";

/// The place of the Base64 text in the JSON text of a verification key.
pub const VERIFY_KEY_POINTER: &'static str = "/Ed25519/key";

/// The place of the identifier in the JSON text of a verification key.
pub const VERIFY_KEY_ID_POINTER: &'static str = "/Ed25519/key_id";

impl VerifyKeyFormat {
    /// The JSON text of this format.
    pub open spec fn text(self) -> Seq<char> {
        tagged_key_text(VERIFY_KEY_OPENING@, self.key_text(), self.id())
    }

    /// What reading a JSON document gives: the Base64 text of the key and
    /// the identifier.
    pub open spec fn parsed(document: Seq<u8>) -> Option<(Seq<char>, Seq<char>)> {
        tagged_key_parsed(document, VERIFY_KEY_POINTER@, VERIFY_KEY_ID_POINTER@)
    }

    /// What importing a JSON document gives.
    pub open spec fn imported_from(document: Seq<u8>) -> Result<KeyView, Error> {
        match Self::parsed(document) {
            None => Err(Error::ImportingKeyFromPemFailed),
            Some((key, key_id)) => match raw_key_imported(key, Error::ImportingKeyFromPemFailed) {
                Ok(bytes) => Ok(KeyView { alg: ED25519_OUTPUT@, bytes, id: key_id }),
                Err(e) => Err(e),
            },
        }
    }

    /// Writes this format as JSON text.
    pub fn to_string(&self) -> (text: String)
        ensures
            text@ == self.text(),
    {
        match self {
            VerifyKeyFormat::Ed25519 { key, key_id } => write_tagged_key(
                VERIFY_KEY_OPENING,
                key.as_str(),
                key_id.as_str(),
            ),
        }
    }

    /// Reads this format from JSON text.
    ///
    /// Fails with `JsonParseFailed` where the text is no JSON, has not
    /// the tag of the algorithm, or lacks the key or the identifier.
    pub fn from_string(v: &[u8]) -> (res: Result<VerifyKeyFormat, Error>)
        ensures
            match res {
                Ok(format) => Self::parsed(v@) == Some((format.key_text(), format.id())),
                Err(e) => e == Error::JsonParseFailed && Self::parsed(v@) is None,
            },
    {
        match read_tagged_key(v, VERIFY_KEY_POINTER, VERIFY_KEY_ID_POINTER) {
            Some((key, key_id)) => Ok(VerifyKeyFormat::Ed25519 { key, key_id }),
            None => Err(Error::JsonParseFailed),
        }
    }
}

/// Imports a verification key from its JSON text.
///
/// Fails with `ImportingKeyFromPemFailed` where the text is no JSON of
/// a verification key, as on an unknown algorithm tag, and as
/// `import_verify_key_from_format` does.
pub fn import_verify_key(key_string: &str) -> (res: Result<VerifyKeyFormatInt, Error>)
    ensures
        VerifyKeyFormatInt::result_view(res) == VerifyKeyFormat::imported_from(
            key_string.spec_bytes(),
        ),
{
    match VerifyKeyFormat::from_string(key_string.as_bytes()) {
        Ok(format) => import_verify_key_from_format(&format),
        Err(_) => Err(Error::ImportingKeyFromPemFailed),
    }
}

/// Exports a verification key to its JSON text. This does not fail.
pub fn export_verify_key_to_string(key: VerifyKeyFormatInt) -> (res: Result<String, Error>)
    ensures
        res matches Ok(text) && text@ == tagged_key_text(
            VERIFY_KEY_OPENING@,
            base64_text(key.key.bytes()),
            key.key_id@,
        ),
{
    let format = export_verify_key(key);
    Ok(format.to_string())
}

/// The keys of a user or a device in their exported formats.
#[derive(Debug, Clone, PartialEq, Eq)]
pub struct KeyData {
    pub private_key: PrivateKeyFormat,
    pub public_key: PublicKeyFormat,
    pub sign_key: SignKeyFormat,
    pub verify_key: VerifyKeyFormat,
}

impl KeyData {
    /// The JSON text of the four keys.
    pub open spec fn text(self) -> Seq<char> {
        "{\"private_key\":"@ + self.private_key.text() + ",\"public_key\":"@
            + self.public_key.text() + ",\"sign_key\":"@ + self.sign_key.text()
            + ",\"verify_key\":"@ + self.verify_key.text() + "}"@
    }

    /// What reading a JSON document gives: for each of the four keys the
    /// Base64 text and the identifier.
    pub open spec fn parsed(document: Seq<u8>) -> Option<
        (
            (Seq<char>, Seq<char>),
            (Seq<char>, Seq<char>),
            (Seq<char>, Seq<char>),
            (Seq<char>, Seq<char>),
        ),
    > {
        match (
            tagged_key_parsed(
                document,
                "/private_key/Ecies/key"@,
                "/private_key/Ecies/key_id"@,
            ),
            tagged_key_parsed(document, "/public_key/Ecies/key"@, "/public_key/Ecies/key_id"@),
            tagged_key_parsed(document, "/sign_key/Ed25519/key"@, "/sign_key/Ed25519/key_id"@),
            tagged_key_parsed(
                document,
                "/verify_key/Ed25519/key"@,
                "/verify_key/Ed25519/key_id"@,
            ),
        ) {
            (Some(private_key), Some(public_key), Some(sign_key), Some(verify_key)) => Some(
                (private_key, public_key, sign_key, verify_key),
            ),
            _ => None,
        }
    }

    /// What the four formats hold: for each the Base64 text and the
    /// identifier.
    pub open spec fn parts(self) -> (
        (Seq<char>, Seq<char>),
        (Seq<char>, Seq<char>),
        (Seq<char>, Seq<char>),
        (Seq<char>, Seq<char>),
    ) {
        (
            (self.private_key.key_text(), self.private_key.id()),
            (self.public_key.key_text(), self.public_key.id()),
            (self.sign_key.key_text(), self.sign_key.id()),
            (self.verify_key.key_text(), self.verify_key.id()),
        )
    }

    /// Writes the four keys as JSON text.
    pub fn to_string(&self) -> (text: String)
        ensures
            text@ == self.text(),
    {
        let mut text = String::from_str("{\"private_key\":");
        let private_key = self.private_key.to_string();
        text.append(private_key.as_str());
        text.append(",\"public_key\":");
        let public_key = self.public_key.to_string();
        text.append(public_key.as_str());
        text.append(",\"sign_key\":");
        let sign_key = self.sign_key.to_string();
        text.append(sign_key.as_str());
        text.append(",\"verify_key\":");
        let verify_key = self.verify_key.to_string();
        text.append(verify_key.as_str());
        text.append("}");
        assert(text@ =~= self.text());
        text
    }

    /// Reads the four keys from JSON text.
    ///
    /// Fails with `JsonParseFailed` where the text is no JSON or lacks
    /// one of the keys under the tag of its algorithm.
    pub fn from_string(v: &[u8]) -> (res: Result<KeyData, Error>)
        ensures
            match res {
                Ok(data) => Self::parsed(v@) == Some(data.parts()),
                Err(e) => e == Error::JsonParseFailed && Self::parsed(v@) is None,
            },
    {
        let private_key = match read_tagged_key(
            v,
            "/private_key/Ecies/key",
            "/private_key/Ecies/key_id",
        ) {
            Some((key, key_id)) => PrivateKeyFormat::Ecies { key, key_id },
            None => { return Err(Error::JsonParseFailed); },
        };
        let public_key = match read_tagged_key(
            v,
            "/public_key/Ecies/key",
            "/public_key/Ecies/key_id",
        ) {
            Some((key, key_id)) => PublicKeyFormat::Ecies { key, key_id },
            None => { return Err(Error::JsonParseFailed); },
        };
        let sign_key = match read_tagged_key(
            v,
            "/sign_key/Ed25519/key",
            "/sign_key/Ed25519/key_id",
        ) {
            Some((key, key_id)) => SignKeyFormat::Ed25519 { key, key_id },
            None => { return Err(Error::JsonParseFailed); },
        };
        let verify_key = match read_tagged_key(
            v,
            "/verify_key/Ed25519/key",
            "/verify_key/Ed25519/key_id",
        ) {
            Some((key, key_id)) => VerifyKeyFormat::Ed25519 { key, key_id },
            None => { return Err(Error::JsonParseFailed); },
        };
        Ok(KeyData { private_key, public_key, sign_key, verify_key })
    }
}

/// The public key of a user or a group as others receive it: in PEM, with
/// its algorithm tag and its identifier.
#[derive(Debug, Clone, PartialEq, Eq)]
pub struct UserPublicKeyData {
    pub public_key_pem: String,
    pub public_key_alg: String,
    pub public_key_id: String,
}

/// The verification key of a user as others receive it: in PEM, with its
/// algorithm tag and its identifier.
#[derive(Debug, Clone, PartialEq, Eq)]
pub struct UserVerifyKeyData {
    pub verify_key_pem: String,
    pub verify_key_alg: String,
    pub verify_key_id: String,
}

/// The raw material that a PEM text holds, whatever its label.
pub open spec fn pem_key_bytes(pem: Seq<char>) -> Result<Seq<u8>, Error> {
    match pem_bytes(pem) {
        Some((_, bytes)) => Ok(bytes),
        None => Err(Error::ImportingKeyFromPemFailed),
    }
}

/// What importing a public key from PEM gives.
pub open spec fn public_key_from_pem(pem: Seq<char>, alg: Seq<char>) -> Result<Seq<u8>, Error> {
    match pem_key_bytes(pem) {
        Ok(bytes) => PublicKey::parsed(bytes, alg),
        Err(e) => Err(e),
    }
}

/// What importing a verification key from PEM gives.
pub open spec fn verify_key_from_pem(pem: Seq<char>, alg: Seq<char>) -> Result<Seq<u8>, Error> {
    match pem_key_bytes(pem) {
        Ok(bytes) => VerifyKey::parsed(bytes, alg),
        Err(e) => Err(e),
    }
}

/// What exporting raw key material to PEM gives.
pub open spec fn key_to_pem(bytes: Seq<u8>) -> Result<Seq<char>, Error> {
    match pem_text(PEM_LABEL@, bytes) {
        Some(text) => Ok(text),
        None => Err(Error::ExportingPublicKeyFailed),
    }
}

/// The text of a result that holds a text.
pub open spec fn result_text(res: Result<String, Error>) -> Result<Seq<char>, Error> {
    match res {
        Ok(text) => Ok(text@),
        Err(e) => Err(e),
    }
}

/// Writes raw key material as PEM.
///
/// Fails with `ExportingPublicKeyFailed` where the material does not fit a
/// PEM document. Reading the result gives the material back, where there
/// is any.
pub fn export_key_to_pem(key: &[u8]) -> (res: Result<String, Error>)
    ensures
        result_text(res) == key_to_pem(key@),
        res matches Ok(pem) ==> key@.len() > 0 ==> pem_key_bytes(pem@) == Ok::<Seq<u8>, Error>(
            key@,
        ),
{
    match pem_encode(PEM_LABEL, key) {
        Some(pem) => Ok(pem),
        None => Err(Error::ExportingPublicKeyFailed),
    }
}

/// Reads raw key material from PEM, whatever the label.
///
/// Fails with `ImportingKeyFromPemFailed` where the text is no PEM.
pub fn import_key_from_pem(pem: &str) -> (res: Result<Vec<u8>, Error>)
    ensures
        crate::alg::sym::result_bytes(res) == pem_key_bytes(pem@),
{
    match pem_decode(pem) {
        Some((_, bytes)) => Ok(bytes),
        None => Err(Error::ImportingKeyFromPemFailed),
    }
}

/// Writes a public key as PEM. Reading the result with the algorithm tag
/// of the key gives the key back.
pub fn export_raw_public_key_to_pem(key: &PublicKey) -> (res: Result<String, Error>)
    ensures
        result_text(res) == key_to_pem(key.bytes()),
        res matches Ok(pem) ==> public_key_from_pem(pem@, key.alg()) == Ok::<Seq<u8>, Error>(
            key.bytes(),
        ),
{
    export_key_to_pem(key.as_bytes())
}

/// Writes a verification key as PEM. Reading the result with the
/// algorithm tag of the key gives the key back.
pub fn export_raw_verify_key_to_pem(key: &VerifyKey) -> (res: Result<String, Error>)
    ensures
        result_text(res) == key_to_pem(key.bytes()),
        res matches Ok(pem) ==> verify_key_from_pem(pem@, key.alg()) == Ok::<Seq<u8>, Error>(
            key.bytes(),
        ),
{
    export_key_to_pem(key.as_bytes())
}

/// Reads a public key of the algorithm `alg` from PEM.
///
/// Fails with `ImportingKeyFromPemFailed` where the text is no PEM, with
/// `AlgNotFound` on an unknown algorithm tag and with
/// `ImportPublicKeyFailed` where the material has not the length of a key.
pub fn import_public_key_from_pem_with_alg(public_key: &str, alg: &str) -> (res: Result<
    PublicKey,
    Error,
>)
    ensures
        PublicKey::result_key_bytes(res) == public_key_from_pem(public_key@, alg@),
{
    match import_key_from_pem(public_key) {
        Ok(bytes) => PublicKey::from_bytes(bytes.as_slice(), alg),
        Err(e) => Err(e),
    }
}

/// Reads a verification key of the algorithm `alg` from PEM.
///
/// Fails with `ImportingKeyFromPemFailed` where the text is no PEM, with
/// `AlgNotFound` on an unknown algorithm tag and with `InitVerifyFailed`
/// where the material has not the length of a key.
pub fn import_verify_key_from_pem_with_alg(verify_key: &str, alg: &str) -> (res: Result<
    VerifyKey,
    Error,
>)
    ensures
        VerifyKey::result_key_bytes(res) == verify_key_from_pem(verify_key@, alg@),
{
    match import_key_from_pem(verify_key) {
        Ok(bytes) => VerifyKey::from_bytes(bytes.as_slice(), alg),
        Err(e) => Err(e),
    }
}

impl UserPublicKeyData {
    /// What importing this public key gives.
    pub open spec fn imported(self) -> Result<KeyView, Error> {
        match public_key_from_pem(self.public_key_pem@, self.public_key_alg@) {
            Ok(bytes) => Ok(
                KeyView { alg: self.public_key_alg@, bytes, id: self.public_key_id@ },
            ),
            Err(e) => Err(e),
        }
    }
}

impl UserVerifyKeyData {
    /// What importing this verification key gives.
    pub open spec fn imported(self) -> Result<KeyView, Error> {
        match verify_key_from_pem(self.verify_key_pem@, self.verify_key_alg@) {
            Ok(bytes) => Ok(
                KeyView { alg: self.verify_key_alg@, bytes, id: self.verify_key_id@ },
            ),
            Err(e) => Err(e),
        }
    }
}

/// Imports the public key that others received.
///
/// Fails as `import_public_key_from_pem_with_alg` does.
pub fn import_public_key_from_user_data(data: &UserPublicKeyData) -> (res: Result<
    PublicKeyFormatInt,
    Error,
>)
    ensures
        PublicKeyFormatInt::result_view(res) == data.imported(),
{
    match import_public_key_from_pem_with_alg(
        data.public_key_pem.as_str(),
        data.public_key_alg.as_str(),
    ) {
        Ok(key) => Ok(PublicKeyFormatInt { key, key_id: data.public_key_id.clone() }),
        Err(e) => Err(e),
    }
}

/// Imports the verification key that others received.
///
/// Fails as `import_verify_key_from_pem_with_alg` does.
pub fn import_verify_key_from_user_data(data: &UserVerifyKeyData) -> (res: Result<
    VerifyKeyFormatInt,
    Error,
>)
    ensures
        VerifyKeyFormatInt::result_view(res) == data.imported(),
{
    match import_verify_key_from_pem_with_alg(
        data.verify_key_pem.as_str(),
        data.verify_key_alg.as_str(),
    ) {
        Ok(key) => Ok(VerifyKeyFormatInt { key, key_id: data.verify_key_id.clone() }),
        Err(e) => Err(e),
    }
}

/// What exporting a key for others gives: the PEM text of its bytes, its
/// algorithm tag and its identifier, in this order.
pub open spec fn user_data_of(key: KeyView) -> Result<(Seq<char>, Seq<char>, Seq<char>), Error> {
    match key_to_pem(key.bytes) {
        Ok(pem) => Ok((pem, key.alg, key.id)),
        Err(e) => Err(e),
    }
}

impl UserPublicKeyData {
    /// The PEM text, the algorithm tag and the identifier of a result that
    /// holds a public key for others.
    pub open spec fn result_parts(res: Result<UserPublicKeyData, Error>) -> Result<
        (Seq<char>, Seq<char>, Seq<char>),
        Error,
    > {
        match res {
            Ok(data) => Ok((data.public_key_pem@, data.public_key_alg@, data.public_key_id@)),
            Err(e) => Err(e),
        }
    }
}

impl UserVerifyKeyData {
    /// The PEM text, the algorithm tag and the identifier of a result that
    /// holds a verification key for others.
    pub open spec fn result_parts(res: Result<UserVerifyKeyData, Error>) -> Result<
        (Seq<char>, Seq<char>, Seq<char>),
        Error,
    > {
        match res {
            Ok(data) => Ok((data.verify_key_pem@, data.verify_key_alg@, data.verify_key_id@)),
            Err(e) => Err(e),
        }
    }
}

/// Exports a public key for others: in PEM, with its algorithm tag and its
/// identifier. Importing the result gives the key back.
///
/// Fails with `ExportingPublicKeyFailed` exactly where the PEM encoding
/// of the key's bytes fails.
pub fn export_public_key_to_user_data(key: &PublicKeyFormatInt) -> (res: Result<
    UserPublicKeyData,
    Error,
>)
    ensures
        UserPublicKeyData::result_parts(res) == user_data_of(key@),
        res matches Ok(data) ==> data.imported() == Ok::<KeyView, Error>(key@),
        res matches Err(e) ==> e == Error::ExportingPublicKeyFailed,
{
    match export_raw_public_key_to_pem(&key.key) {
        Ok(pem) => Ok(
            UserPublicKeyData {
                public_key_pem: pem,
                public_key_alg: String::from_str(key.key.get_alg_str()),
                public_key_id: key.key_id.clone(),
            },
        ),
        Err(e) => Err(e),
    }
}

/// Exports a verification key for others: in PEM, with its algorithm tag
/// and its identifier. Importing the result gives the key back.
///
/// Fails with `ExportingPublicKeyFailed` exactly where the PEM encoding
/// of the key's bytes fails.
pub fn export_verify_key_to_user_data(key: &VerifyKeyFormatInt) -> (res: Result<
    UserVerifyKeyData,
    Error,
>)
    ensures
        UserVerifyKeyData::result_parts(res) == user_data_of(key@),
        res matches Ok(data) ==> data.imported() == Ok::<KeyView, Error>(key@),
        res matches Err(e) ==> e == Error::ExportingPublicKeyFailed,
{
    match export_raw_verify_key_to_pem(&key.key) {
        Ok(pem) => Ok(
            UserVerifyKeyData {
                verify_key_pem: pem,
                verify_key_alg: String::from_str(key.key.get_alg_str()),
                verify_key_id: key.key_id.clone(),
            },
        ),
        Err(e) => Err(e),
    }
}

} // verus!
