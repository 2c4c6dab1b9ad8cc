//! Text encodings that the wire formats use: Base64, PEM and JSON.
//!
//! Each function here calls one function of an encoding crate. Verus takes
//! these contracts on trust. The encodings are functions of their input, so
//! each gets a name.

use vstd::prelude::*;

use base64ct::Encoding;

verus! {

/// The Base64 text, in the standard alphabet with padding, of `bytes`.
pub uninterp spec fn base64_text(bytes: Seq<u8>) -> Seq<char>;

/// The bytes that the Base64 text `text` stands for; `None` where `text`
/// is no Base64.
pub uninterp spec fn base64_bytes(text: Seq<char>) -> Option<Seq<u8>>;

/// `Base64::encode_string` of `base64ct`, which panics on inputs longer
/// than a quarter of the address space. The result is a function of the
/// argument, and decoding it gives the argument back.
#[verifier::external_body]
pub(crate) fn base64_encode(bytes: &[u8]) -> (text: String)
    requires
        bytes@.len() * 4 <= usize::MAX,
    ensures
        text@ == base64_text(bytes@),
        base64_bytes(text@) == Some(bytes@),
{
    base64ct::Base64::encode_string(bytes)
}

/// `Base64::decode_vec` of `base64ct`. The result is a function of the
/// argument.
#[verifier::external_body]
pub(crate) fn base64_decode(text: &str) -> (res: Option<Vec<u8>>)
    ensures
        crate::primitives::bytes_of(res) == base64_bytes(text@),
{
    base64ct::Base64::decode_vec(text).ok()
}

/// The PEM document with the label `label` that holds `bytes`, with line
/// feeds between its lines; `None` where PEM has no such document.
pub uninterp spec fn pem_text(label: Seq<char>, bytes: Seq<u8>) -> Option<Seq<char>>;

/// The label and the bytes of the PEM document `text`; `None` where
/// `text` is no PEM.
pub uninterp spec fn pem_bytes(text: Seq<char>) -> Option<(Seq<char>, Seq<u8>)>;

/// The label of a public key or a verification key in PEM.
pub const PEM_LABEL: &'static str = "PUBLIC KEY";

/// `encode_string` of `pem_rfc7468`, with line feeds. The result is a
/// function of the arguments. Decoding a document with the label of a
/// public key that holds at least one byte gives the label and the bytes
/// back; of other labels and of empty documents nothing is claimed, and
/// some of them do not decode.
#[verifier::external_body]
pub(crate) fn pem_encode(label: &str, bytes: &[u8]) -> (res: Option<String>)
    ensures
        match res {
            Some(text) => pem_text(label@, bytes@) == Some(text@),
            None => pem_text(label@, bytes@) is None,
        },
        res matches Some(text) ==> label@ == PEM_LABEL@ && bytes@.len() > 0 ==> pem_bytes(text@)
            == Some((label@, bytes@)),
{
    pem_rfc7468::encode_string(label, pem_rfc7468::LineEnding::LF, bytes).ok()
}

/// `decode_vec` of `pem_rfc7468`. The result is a function of the
/// argument.
#[verifier::external_body]
pub(crate) fn pem_decode(text: &str) -> (res: Option<(String, Vec<u8>)>)
    ensures
        match res {
            Some((label, bytes)) => pem_bytes(text@) == Some((label@, bytes@)),
            None => pem_bytes(text@) is None,
        },
{
    match pem_rfc7468::decode_vec(text.as_bytes()) {
        Ok((label, bytes)) => Some((label.to_string(), bytes)),
        Err(_) => None,
    }
}

/// What a JSON document holds at one place.
#[derive(Debug, Clone, PartialEq, Eq)]
pub enum JsonNode {
    /// The document is no JSON: what the parser said of it.
    Invalid(String),
    /// The document has nothing at this place.
    Missing,
    /// The place holds `null`.
    Null,
    /// The place holds a string.
    Text(String),
    /// The place holds a number, a truth value, an array or an object.
    Other,
}

/// What a JSON document holds at one place, with the string as a sequence
/// of characters.
pub enum JsonNodeView {
    Invalid(Seq<char>),
    Missing,
    Null,
    Text(Seq<char>),
    Other,
}

impl View for JsonNode {
    type V = JsonNodeView;

    open spec fn view(&self) -> JsonNodeView {
        match self {
            JsonNode::Invalid(message) => JsonNodeView::Invalid(message@),
            JsonNode::Missing => JsonNodeView::Missing,
            JsonNode::Null => JsonNodeView::Null,
            JsonNode::Text(text) => JsonNodeView::Text(text@),
            JsonNode::Other => JsonNodeView::Other,
        }
    }
}

/// `text` as a JSON string: in quotes, with the characters escaped that
/// JSON does not allow in a string.
pub uninterp spec fn json_quoted(text: Seq<char>) -> Seq<char>;

/// `serde_json::to_string` on a string. The result is a function of the
/// argument.
#[verifier::external_body]
pub(crate) fn json_quote(text: &str) -> (quoted: String)
    ensures
        quoted@ == json_quoted(text@),
{
    serde_json::to_string(text).unwrap_or_default()
}

/// What the JSON document `document` holds at the place that the JSON
/// pointer `pointer` names; for a document that is no JSON, what the
/// parser says of it.
pub uninterp spec fn json_value_at(document: Seq<u8>, pointer: Seq<char>) -> JsonNodeView;

/// `serde_json::from_slice`, then `Value::pointer`, of `serde_json`; for
/// a document that is no JSON, the text of the parser's error. The result
/// is a function of the arguments.
#[verifier::external_body]
pub(crate) fn json_lookup(document: &[u8], pointer: &str) -> (node: JsonNode)
    ensures
        node@ == json_value_at(document@, pointer@),
{
    match serde_json::from_slice::<serde_json::Value>(document) {
        Err(e) => JsonNode::Invalid(e.to_string()),
        Ok(value) => match value.pointer(pointer) {
            None => JsonNode::Missing,
            Some(serde_json::Value::Null) => JsonNode::Null,
            Some(serde_json::Value::String(text)) => JsonNode::Text(text.clone()),
            Some(_) => JsonNode::Other,
        },
    }
}

} // verus!
