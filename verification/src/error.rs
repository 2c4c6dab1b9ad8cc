//! Error kinds, and their rendering for callers in other languages.
//!
//! Every failure of the library is one value of [`Error`] or [`SdkError`].
//! At the outermost boundary it becomes a small JSON text with the fields
//! `status` and `error_message`, so that every binding reports the same codes.

use vstd::prelude::*;
use vstd::string::*;

verus! {

/// What can go wrong in the cryptographic core and at its format boundary.
#[derive(Debug, Clone, Copy, PartialEq, Eq, Structural)]
pub enum Error {
    DecryptionFailedCiphertextShort,

    KeyCreationFailed,
    EncryptionFailed,
    EncryptionFailedRng,
    DecryptionFailed,

    PwHashFailed,
    PwSplitFailedLeft,
    PwSplitFailedRight,
    HashAuthKeyFailed,

    KeyDecryptFailed,

    SignKeyCreateFailed,
    InitSignFailed,
    DataToSignTooShort,
    InitVerifyFailed,

    AlgNotFound,
    DecodeSaltFailed,
    DerivedKeyWrongFormat,

    LoginServerOutputWrong,
    KeyRotationServerOutputWrong,

    DecodePrivateKeyFailed,

    ImportingPrivateKeyFailed,
    ImportingSignKeyFailed,
    ImportSymmetricKeyFailed,
    ImportPublicKeyFailed,

    ExportingPublicKeyFailed,
    ImportingKeyFromPemFailed,

    JsonToStringFailed,
    JsonParseFailed,
}

/// What can go wrong in the layers on top of the core.
#[derive(Debug, Clone, PartialEq, Eq)]
pub enum SdkError {
    /// A failure of the cryptographic core.
    Base(Error),
    /// The server answered with an error of its own: its code and message.
    ServerErr(u32, String),
    /// A text is no JSON: what the parser said of it.
    JsonParseFailed(String),
    JsonParse,
    DecodeRandomValueFailed,
    DecodePublicKeyFailed,
    ImportVerifyKeyFailed,
    ImportAuthMasterKeyFailed,
    ImportKeyFailed,
    InvalidJwt,
    InvalidJwtFormat,
    DecryptingLoginChallengeFailed,
    SigFoundNotKey,
    VerifyFailed,
    DecodeEncryptedDataFailed,
    GroupRank,
    GroupPermission,
    GroupUserKickRank,
}

/// What an `SdkError` holds, with texts as sequences of characters.
pub enum SdkErrorView {
    Base(Error),
    ServerErr(u32, Seq<char>),
    JsonParseFailed(Seq<char>),
    JsonParse,
    DecodeRandomValueFailed,
    DecodePublicKeyFailed,
    ImportVerifyKeyFailed,
    ImportAuthMasterKeyFailed,
    ImportKeyFailed,
    InvalidJwt,
    InvalidJwtFormat,
    DecryptingLoginChallengeFailed,
    SigFoundNotKey,
    VerifyFailed,
    DecodeEncryptedDataFailed,
    GroupRank,
    GroupPermission,
    GroupUserKickRank,
}

impl View for SdkError {
    type V = SdkErrorView;

    open spec fn view(&self) -> SdkErrorView {
        match self {
            SdkError::Base(e) => SdkErrorView::Base(*e),
            SdkError::ServerErr(code, message) => SdkErrorView::ServerErr(*code, message@),
            SdkError::JsonParseFailed(message) => SdkErrorView::JsonParseFailed(message@),
            SdkError::JsonParse => SdkErrorView::JsonParse,
            SdkError::DecodeRandomValueFailed => SdkErrorView::DecodeRandomValueFailed,
            SdkError::DecodePublicKeyFailed => SdkErrorView::DecodePublicKeyFailed,
            SdkError::ImportVerifyKeyFailed => SdkErrorView::ImportVerifyKeyFailed,
            SdkError::ImportAuthMasterKeyFailed => SdkErrorView::ImportAuthMasterKeyFailed,
            SdkError::ImportKeyFailed => SdkErrorView::ImportKeyFailed,
            SdkError::InvalidJwt => SdkErrorView::InvalidJwt,
            SdkError::InvalidJwtFormat => SdkErrorView::InvalidJwtFormat,
            SdkError::DecryptingLoginChallengeFailed => SdkErrorView::DecryptingLoginChallengeFailed,
            SdkError::SigFoundNotKey => SdkErrorView::SigFoundNotKey,
            SdkError::VerifyFailed => SdkErrorView::VerifyFailed,
            SdkError::DecodeEncryptedDataFailed => SdkErrorView::DecodeEncryptedDataFailed,
            SdkError::GroupRank => SdkErrorView::GroupRank,
            SdkError::GroupPermission => SdkErrorView::GroupPermission,
            SdkError::GroupUserKickRank => SdkErrorView::GroupUserKickRank,
        }
    }
}

impl Error {
    /// The stable code of this error kind.
    pub open spec fn code(self) -> Seq<char> {
        match self {
            Error::DecryptionFailedCiphertextShort => "client_10"@,
            Error::KeyCreationFailed => "client_11"@,
            Error::EncryptionFailed => "client_12"@,
            Error::EncryptionFailedRng => "client_13"@,
            Error::DecryptionFailed => "client_14"@,
            Error::PwHashFailed => "client_20"@,
            Error::PwSplitFailedLeft => "client_21"@,
            Error::PwSplitFailedRight => "client_21"@,
            Error::HashAuthKeyFailed => "client_22"@,
            Error::KeyDecryptFailed => "client_30"@,
            Error::SignKeyCreateFailed => "client_40"@,
            Error::InitSignFailed => "client_41"@,
            Error::DataToSignTooShort => "client_42"@,
            Error::InitVerifyFailed => "client_43"@,
            Error::AlgNotFound => "client_1"@,
            Error::DecodeSaltFailed => "client_4"@,
            Error::DerivedKeyWrongFormat => "client_2"@,
            Error::LoginServerOutputWrong => "client_130"@,
            Error::KeyRotationServerOutputWrong => "client_200"@,
            Error::DecodePrivateKeyFailed => "client_3"@,
            Error::ImportingPrivateKeyFailed => "client_111"@,
            Error::ImportingSignKeyFailed => "client_110"@,
            Error::ImportSymmetricKeyFailed => "client_112"@,
            Error::ImportPublicKeyFailed => "client_113"@,
            Error::ExportingPublicKeyFailed => "client_120"@,
            Error::ImportingKeyFromPemFailed => "client_115"@,
            Error::JsonToStringFailed => "client_100"@,
            Error::JsonParseFailed => "client_101"@,
        }
    }

    /// The text that explains this error kind.
    pub open spec fn message(self) -> Seq<char> {
        match self {
            Error::DecryptionFailedCiphertextShort => "cipher is too short."@,
            Error::KeyCreationFailed => "Can't create a key. This normally happened when the used system has no mechanisms to create random numbers"@,
            Error::EncryptionFailed => "Can't encrypt symmetrically."@,
            Error::EncryptionFailedRng => "Can't create random numbers. This normally happened when the used system has no mechanisms to create random numbers"@,
            Error::DecryptionFailed => "Can't decrypt the cipher. This happened when using a wrong key to decrypt"@,
            Error::PwHashFailed => "Can't hash the password. This happened when using a wrong algorithm or the output is wrong."@,
            Error::PwSplitFailedLeft => "Can't hash the password. The input is too short"@,
            Error::PwSplitFailedRight => "Can't hash the password. The input is too short"@,
            Error::HashAuthKeyFailed => "Can't hash the password"@,
            Error::KeyDecryptFailed => "Can't decrypt the key. Maybe a wrong master key was used."@,
            Error::SignKeyCreateFailed => "Can't create a sign key from given bytes"@,
            Error::InitSignFailed => "Can't create a sign"@,
            Error::DataToSignTooShort => "This data doesn't contains a sign"@,
            Error::InitVerifyFailed => "Can't verify the data"@,
            Error::AlgNotFound => "The algorithms for this action was not found."@,
            Error::DecodeSaltFailed => "The salt has a wrong format"@,
            Error::DerivedKeyWrongFormat => "The encrypted key has a wrong format."@,
            Error::LoginServerOutputWrong => "Error in login. Missing user keys. Maybe the Key creation was wrong"@,
            Error::KeyRotationServerOutputWrong => "The key rotation data is wrong and can't be decoded."@,
            Error::DecodePrivateKeyFailed => "The private key has a wrong format."@,
            Error::ImportingPrivateKeyFailed => "Can't import the private key"@,
            Error::ImportingSignKeyFailed => "Can't import the sign key"@,
            Error::ImportSymmetricKeyFailed => "Can't import symmetric key"@,
            Error::ImportPublicKeyFailed => "Can't import public key"@,
            Error::ExportingPublicKeyFailed => "Can't export the public key. It doesn't fit in a pem format"@,
            Error::ImportingKeyFromPemFailed => "Can't import this key. It has a wrong format"@,
            Error::JsonToStringFailed => "Cannot create a string from this object"@,
            Error::JsonParseFailed => "Cannot create an object from the input string"@,
        }
    }

    /// The stable code of this error kind.
    pub fn status_code(&self) -> (code: &'static str)
        ensures
            code@ == self.code(),
    {
        match self {
            Error::DecryptionFailedCiphertextShort => "client_10",
            Error::KeyCreationFailed => "client_11",
            Error::EncryptionFailed => "client_12",
            Error::EncryptionFailedRng => "client_13",
            Error::DecryptionFailed => "client_14",
            Error::PwHashFailed => "client_20",
            Error::PwSplitFailedLeft => "client_21",
            Error::PwSplitFailedRight => "client_21",
            Error::HashAuthKeyFailed => "client_22",
            Error::KeyDecryptFailed => "client_30",
            Error::SignKeyCreateFailed => "client_40",
            Error::InitSignFailed => "client_41",
            Error::DataToSignTooShort => "client_42",
            Error::InitVerifyFailed => "client_43",
            Error::AlgNotFound => "client_1",
            Error::DecodeSaltFailed => "client_4",
            Error::DerivedKeyWrongFormat => "client_2",
            Error::LoginServerOutputWrong => "client_130",
            Error::KeyRotationServerOutputWrong => "client_200",
            Error::DecodePrivateKeyFailed => "client_3",
            Error::ImportingPrivateKeyFailed => "client_111",
            Error::ImportingSignKeyFailed => "client_110",
            Error::ImportSymmetricKeyFailed => "client_112",
            Error::ImportPublicKeyFailed => "client_113",
            Error::ExportingPublicKeyFailed => "client_120",
            Error::ImportingKeyFromPemFailed => "client_115",
            Error::JsonToStringFailed => "client_100",
            Error::JsonParseFailed => "client_101",
        }
    }

    /// The text that explains this error kind.
    pub fn status_message(&self) -> (message: &'static str)
        ensures
            message@ == self.message(),
    {
        match self {
            Error::DecryptionFailedCiphertextShort => "cipher is too short.",
            Error::KeyCreationFailed => "Can't create a key. This normally happened when the used system has no mechanisms to create random numbers",
            Error::EncryptionFailed => "Can't encrypt symmetrically.",
            Error::EncryptionFailedRng => "Can't create random numbers. This normally happened when the used system has no mechanisms to create random numbers",
            Error::DecryptionFailed => "Can't decrypt the cipher. This happened when using a wrong key to decrypt",
            Error::PwHashFailed => "Can't hash the password. This happened when using a wrong algorithm or the output is wrong.",
            Error::PwSplitFailedLeft => "Can't hash the password. The input is too short",
            Error::PwSplitFailedRight => "Can't hash the password. The input is too short",
            Error::HashAuthKeyFailed => "Can't hash the password",
            Error::KeyDecryptFailed => "Can't decrypt the key. Maybe a wrong master key was used.",
            Error::SignKeyCreateFailed => "Can't create a sign key from given bytes",
            Error::InitSignFailed => "Can't create a sign",
            Error::DataToSignTooShort => "This data doesn't contains a sign",
            Error::InitVerifyFailed => "Can't verify the data",
            Error::AlgNotFound => "The algorithms for this action was not found.",
            Error::DecodeSaltFailed => "The salt has a wrong format",
            Error::DerivedKeyWrongFormat => "The encrypted key has a wrong format.",
            Error::LoginServerOutputWrong => "Error in login. Missing user keys. Maybe the Key creation was wrong",
            Error::KeyRotationServerOutputWrong => "The key rotation data is wrong and can't be decoded.",
            Error::DecodePrivateKeyFailed => "The private key has a wrong format.",
            Error::ImportingPrivateKeyFailed => "Can't import the private key",
            Error::ImportingSignKeyFailed => "Can't import the sign key",
            Error::ImportSymmetricKeyFailed => "Can't import symmetric key",
            Error::ImportPublicKeyFailed => "Can't import public key",
            Error::ExportingPublicKeyFailed => "Can't export the public key. It doesn't fit in a pem format",
            Error::ImportingKeyFromPemFailed => "Can't import this key. It has a wrong format",
            Error::JsonToStringFailed => "Cannot create a string from this object",
            Error::JsonParseFailed => "Cannot create an object from the input string",
        }
    }
}

/// The decimal digit `d` as a character.
pub open spec fn digit_char(d: int) -> char {
    if d == 0 {
        '0'
    } else if d == 1 {
        '1'
    } else if d == 2 {
        '2'
    } else if d == 3 {
        '3'
    } else if d == 4 {
        '4'
    } else if d == 5 {
        '5'
    } else if d == 6 {
        '6'
    } else if d == 7 {
        '7'
    } else if d == 8 {
        '8'
    } else {
        '9'
    }
}

/// The decimal notation of `n`, without leading zeros.
pub open spec fn decimal_text(n: nat) -> Seq<char>
    decreases n,
{
    if n < 10 {
        seq![digit_char(n as int)]
    } else {
        decimal_text(n / 10).push(digit_char((n % 10) as int))
    }
}

fn digit_str(d: u32) -> (s: &'static str)
    requires
        d < 10,
    ensures
        s@ == seq![digit_char(d as int)],
{
    proof {
        reveal_strlit("0");
        reveal_strlit("1");
        reveal_strlit("2");
        reveal_strlit("3");
        reveal_strlit("4");
        reveal_strlit("5");
        reveal_strlit("6");
        reveal_strlit("7");
        reveal_strlit("8");
        reveal_strlit("9");
    }
    let s = if d == 0 {
        "0"
    } else if d == 1 {
        "1"
    } else if d == 2 {
        "2"
    } else if d == 3 {
        "3"
    } else if d == 4 {
        "4"
    } else if d == 5 {
        "5"
    } else if d == 6 {
        "6"
    } else if d == 7 {
        "7"
    } else if d == 8 {
        "8"
    } else {
        "9"
    };
    assert(s@ =~= seq![digit_char(d as int)]);
    s
}

/// Writes `n` in decimal notation.
pub fn decimal_string(n: u32) -> (text: String)
    ensures
        text@ == decimal_text(n as nat),
{
    let mut rest: u32 = n / 10;
    let mut text = String::from_str(digit_str(n % 10));
    let ghost mut done: Seq<char> = seq![digit_char((n % 10) as int)];
    // `text` holds the low digits of `n`; `rest` holds the digits still to write.
    while rest > 0
        invariant
            text@ == done,
            decimal_tail(rest as nat, done) == decimal_text(n as nat),
        decreases rest,
    {
        let d: u32 = rest % 10;
        proof {
            lemma_decimal_tail_step(rest as nat, done);
        }
        let head = String::from_str(digit_str(d));
        text = head.concat(text.as_str());
        proof {
            done = seq![digit_char(d as int)] + done;
        }
        rest = rest / 10;
    }
    text
}

/// The digits of `rest`, if any, followed by the digits in `done`.
pub open spec fn decimal_tail(rest: nat, done: Seq<char>) -> Seq<char> {
    if rest == 0 {
        done
    } else {
        decimal_text(rest) + done
    }
}

proof fn lemma_decimal_tail_step(rest: nat, done: Seq<char>)
    requires
        rest > 0,
    ensures
        decimal_tail(rest, done) == decimal_tail(
            rest / 10,
            seq![digit_char((rest % 10) as int)] + done,
        ),
{
    let d = seq![digit_char((rest % 10) as int)];
    if rest < 10 {
        assert(rest / 10 == 0);
        assert(decimal_text(rest) =~= d);
    } else {
        assert(decimal_text(rest) =~= decimal_text(rest / 10) + d);
        assert(decimal_text(rest) + done =~= decimal_text(rest / 10) + (d + done));
    }
}

impl SdkError {
    /// The stable code of this error kind.
    pub open spec fn code(self) -> Seq<char> {
        match self {
            SdkError::Base(e) => e.code(),
            SdkError::ServerErr(code, _) => "server_"@ + decimal_text(code as nat),
            SdkError::JsonParseFailed(_) => "client_101"@,
            SdkError::JsonParse => "client_102"@,
            SdkError::DecodeRandomValueFailed => "client_5"@,
            SdkError::DecodePublicKeyFailed => "client_8"@,
            SdkError::ImportVerifyKeyFailed => "client_114"@,
            SdkError::ImportAuthMasterKeyFailed => "client_116"@,
            SdkError::ImportKeyFailed => "client_109"@,
            SdkError::InvalidJwt => "client_1100"@,
            SdkError::InvalidJwtFormat => "client_1101"@,
            SdkError::DecryptingLoginChallengeFailed => "client_1102"@,
            SdkError::SigFoundNotKey => "client_20"@,
            SdkError::VerifyFailed => "client_22"@,
            SdkError::DecodeEncryptedDataFailed => "client_10"@,
            SdkError::GroupRank => "client_200"@,
            SdkError::GroupPermission => "client_201"@,
            SdkError::GroupUserKickRank => "client_202"@,
        }
    }

    /// The text that explains this error.
    pub open spec fn message(self) -> Seq<char> {
        match self {
            SdkError::Base(e) => e.message(),
            SdkError::ServerErr(_, message) => message@,
            SdkError::JsonParseFailed(message) => message@,
            SdkError::JsonParse => "Cannot create an object from the input string"@,
            SdkError::DecodeRandomValueFailed => "Can't decode the client random value from registration"@,
            SdkError::DecodePublicKeyFailed => "Can't decode the public key. Maybe the format is wrong"@,
            SdkError::ImportVerifyKeyFailed => "Can't import verify key"@,
            SdkError::ImportAuthMasterKeyFailed => "Can't import auth master key"@,
            SdkError::ImportKeyFailed => "Can't import the key"@,
            SdkError::InvalidJwt => "Jwt is invalid"@,
            SdkError::InvalidJwtFormat => "Jwt has a wrong format"@,
            SdkError::DecryptingLoginChallengeFailed => "Can't verify login."@,
            SdkError::SigFoundNotKey => "The verification key can't verify this signature. The signature was signed by another key pair."@,
            SdkError::VerifyFailed => "The verification failed. A wrong verify key was used"@,
            SdkError::DecodeEncryptedDataFailed => "Can't decode the encrypted data"@,
            SdkError::GroupRank => "No valid group rank. Please choose between 1 (highest) and 4 (lowest)"@,
            SdkError::GroupPermission => "No permission to fulfill this action"@,
            SdkError::GroupUserKickRank => "The user to delete has a higher rank."@,
        }
    }
}

/// The JSON text that reports the code `code` with the message `message`.
pub open spec fn error_text(code: Seq<char>, message: Seq<char>) -> Seq<char> {
    "{\"status\": \""@ + code + "\", \"error_message\": \""@ + message + "\"}"@
}

/// Renders an error code and its message as the JSON text that every binding
/// hands to its application.
pub fn out_error(code: &str, message: &str) -> (text: String)
    ensures
        text@ == error_text(code@, message@),
{
    let mut text = String::from_str("{\"status\": \"");
    text.append(code);
    text.append("\", \"error_message\": \"");
    text.append(message);
    text.append("\"}");
    text
}

/// Renders an error for the application: its code and its message.
pub fn err_to_msg(error: SdkError) -> (text: String)
    ensures
        text@ == error_text(error.code(), error.message()),
{
    match error {
        SdkError::Base(e) => out_error(e.status_code(), e.status_message()),
        SdkError::ServerErr(code, message) => {
            let mut status = String::from_str("server_");
            let number = decimal_string(code);
            status.append(number.as_str());
            out_error(status.as_str(), message.as_str())
        },
        SdkError::JsonParseFailed(message) => out_error("client_101", message.as_str()),
        SdkError::JsonParse => out_error("client_102", "Cannot create an object from the input string"),
        SdkError::DecodeRandomValueFailed => out_error("client_5", "Can't decode the client random value from registration"),
        SdkError::DecodePublicKeyFailed => out_error("client_8", "Can't decode the public key. Maybe the format is wrong"),
        SdkError::ImportVerifyKeyFailed => out_error("client_114", "Can't import verify key"),
        SdkError::ImportAuthMasterKeyFailed => out_error("client_116", "Can't import auth master key"),
        SdkError::ImportKeyFailed => out_error("client_109", "Can't import the key"),
        SdkError::InvalidJwt => out_error("client_1100", "Jwt is invalid"),
        SdkError::InvalidJwtFormat => out_error("client_1101", "Jwt has a wrong format"),
        SdkError::DecryptingLoginChallengeFailed => out_error("client_1102", "Can't verify login."),
        SdkError::SigFoundNotKey => out_error("client_20", "The verification key can't verify this signature. The signature was signed by another key pair."),
        SdkError::VerifyFailed => out_error("client_22", "The verification failed. A wrong verify key was used"),
        SdkError::DecodeEncryptedDataFailed => out_error("client_10", "Can't decode the encrypted data"),
        SdkError::GroupRank => out_error("client_200", "No valid group rank. Please choose between 1 (highest) and 4 (lowest)"),
        SdkError::GroupPermission => out_error("client_201", "No permission to fulfill this action"),
        SdkError::GroupUserKickRank => out_error("client_202", "The user to delete has a higher rank."),
    }
}

} // verus!
