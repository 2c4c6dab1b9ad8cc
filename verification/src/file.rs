//! Registration of encrypted files.
//!
//! A file belongs to a group, to a user or to nobody. Its name is
//! encrypted under the key of the file, so that the server stores no name
//! in the clear.

use vstd::prelude::*;
use vstd::string::*;

use crate::crypto::{
    encrypt_string_symmetric, head_for, holds_sym_encryption, is_framed_encryption_failure,
    sym_decrypts_to, text_decoded,
};
use crate::error::{Error, SdkError};
use crate::server::{handle_server_response, server_response, ServerOutput};
use crate::util::SymKeyFormatInt;

verus! {

/// What a file belongs to.
#[derive(Debug, Clone, Copy, PartialEq, Eq)]
pub enum BelongsToType {
    Group,
    User,
    Nobody,
}

/// What a client sends to register a file.
#[derive(Debug, Clone, PartialEq, Eq)]
pub struct FileRegisterInput {
    pub key_id: String,
    pub belongs_to_id: Option<String>,
    pub belongs_to_type: BelongsToType,
    pub encrypted_file_name: Option<String>,
}

/// What the server answers to the registration of a file.
#[derive(Debug, Clone, PartialEq, Eq)]
pub struct FileRegisterOutput {
    pub file_id: String,
    pub session_id: String,
}

/// What a client sends to rename a file.
#[derive(Debug, Clone, PartialEq, Eq)]
pub struct FileNameUpdate {
    pub encrypted_file_name: Option<String>,
}

/// Whether `encrypted` is the name `file_name`, encrypted under `key`:
/// nothing for no name, and else a text that decodes to a buffer which
/// decrypts under `key` to the name, as `decrypt_string_symmetric` reads
/// it.
pub open spec fn is_encrypted_file_name(
    encrypted: Option<String>,
    key: SymKeyFormatInt,
    file_name: Seq<char>,
) -> bool {
    if file_name.len() == 0 {
        encrypted is None
    } else {
        &&& encrypted matches Some(text)
        &&& text_decoded(text@) matches Ok(buffer)
        &&& holds_sym_encryption(
            buffer,
            head_for(key.key_id@, None),
            key.key.bytes(),
            Seq::<u8>::empty(),
            vstd::utf8::encode_utf8(file_name),
            None,
        )
        &&& sym_decrypts_to(
            buffer,
            key.key.bytes(),
            Seq::<u8>::empty(),
            vstd::utf8::encode_utf8(file_name),
            None,
        )
    }
}

fn encrypt_file_name(key: &SymKeyFormatInt, file_name: &str) -> (res: Result<
    Option<String>,
    SdkError,
>)
    ensures
        res matches Ok(encrypted) ==> is_encrypted_file_name(encrypted, *key, file_name@),
        res matches Err(e) ==> file_name@.len() > 0 && is_framed_encryption_failure(e),
{
    if file_name.is_empty() {
        return Ok(None);
    }
    match encrypt_string_symmetric(key, file_name.as_bytes(), None) {
        Ok(text) => Ok(Some(text)),
        Err(e) => Err(e),
    }
}

/// Prepares the registration of a file whose content is encrypted under
/// `key`. An empty `belongs_to_id` stands for none, an empty `file_name`
/// for no name.
///
/// Fails where the name cannot be encrypted. The result names the key
/// and what the file belongs to, and holds the name, encrypted under
/// `key`, both for the server and for the caller.
pub fn prepare_register_file(
    key: &SymKeyFormatInt,
    belongs_to_id: &str,
    belongs_to_type: BelongsToType,
    file_name: &str,
) -> (res: Result<(FileRegisterInput, Option<String>), SdkError>)
    ensures
        res matches Ok((input, encrypted)) ==> {
            &&& input.key_id@ == key.key_id@
            &&& input.belongs_to_type == belongs_to_type
            &&& match input.belongs_to_id {
                Some(id) => id@ == belongs_to_id@ && belongs_to_id@.len() > 0,
                None => belongs_to_id@.len() == 0,
            }
            &&& input.encrypted_file_name == encrypted
            &&& is_encrypted_file_name(encrypted, *key, file_name@)
        },
        res matches Err(e) ==> file_name@.len() > 0 && is_framed_encryption_failure(e),
{
    let encrypted = match encrypt_file_name(key, file_name) {
        Ok(encrypted) => encrypted,
        Err(e) => { return Err(e); },
    };
    let belongs_to_id = if belongs_to_id.is_empty() {
        None
    } else {
        Some(String::from_str(belongs_to_id))
    };
    let input = FileRegisterInput {
        key_id: key.key_id.clone(),
        belongs_to_id,
        belongs_to_type,
        encrypted_file_name: encrypted.clone(),
    };
    Ok((input, encrypted))
}

/// Reads the server's answer to the registration of a file: the
/// identifier of the file and the identifier of the upload session.
///
/// Fails as `handle_server_response` does.
pub fn done_register_file(server_output: ServerOutput<FileRegisterOutput>) -> (res: Result<
    (String, String),
    SdkError,
>)
    ensures
        match server_response(server_output) {
            Ok(output) => res == Ok::<(String, String), SdkError>(
                (output.file_id, output.session_id),
            ),
            Err(e) => res == Err::<(String, String), SdkError>(e),
        },
{
    match handle_server_response(server_output) {
        Ok(output) => Ok((output.file_id, output.session_id)),
        Err(e) => Err(e),
    }
}

/// Prepares the renaming of a file: encrypts the new name under `key`.
/// An empty `file_name` stands for no name.
///
/// Fails where the name cannot be encrypted.
pub fn prepare_file_name_update(key: &SymKeyFormatInt, file_name: &str) -> (res: Result<
    FileNameUpdate,
    SdkError,
>)
    ensures
        res matches Ok(update) ==> is_encrypted_file_name(
            update.encrypted_file_name,
            *key,
            file_name@,
        ),
        res matches Err(e) ==> file_name@.len() > 0 && is_framed_encryption_failure(e),
{
    match encrypt_file_name(key, file_name) {
        Ok(encrypted_file_name) => Ok(FileNameUpdate { encrypted_file_name }),
        Err(e) => Err(e),
    }
}

} // verus!
