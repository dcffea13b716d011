//! The encoding of the secure key-value store: one file per key, holding
//! the value's UTF-8 bytes in standard padded base64. This is obfuscation
//! at rest, not encryption.
use vstd::prelude::*;
use vstd::string::*;
use vstd::utf8::{decode_utf8, encode_utf8, encode_utf8_decode_utf8, encode_utf8_valid_utf8, valid_utf8};
use base64::Engine;

verus! {

/// The standard padded base64 text of `bytes`.
pub uninterp spec fn base64_encoding(bytes: Seq<u8>) -> Seq<char>;

/// The bytes that the standard padded base64 decoder reads from `text`, if
/// it accepts it.
pub uninterp spec fn base64_decoding(text: Seq<char>) -> Option<Seq<u8>>;

/// Relies on `Engine::encode` of `base64::engine::general_purpose::STANDARD`
/// (base64 alphabet, padding on): it returns the text of the bytes, and the
/// same engine decodes that text back to the bytes. It panics only when the
/// output length overflows `usize`, which `requires` leaves out.
#[verifier::external_body]
fn encode_base64(bytes: &[u8]) -> (r: String)
    requires
        bytes@.len() / 3 * 4 + 4 <= usize::MAX,
    ensures
        r@ == base64_encoding(bytes@),
        base64_decoding(r@) == Some(bytes@),
{
    base64::engine::general_purpose::STANDARD.encode(bytes)
}

/// Relies on `Engine::decode` of `base64::engine::general_purpose::STANDARD`:
/// it accepts canonical padded base64 and returns the bytes it encodes; a
/// refusal comes with the decoder's error as text.
#[verifier::external_body]
fn decode_base64(text: &str) -> (r: Result<Vec<u8>, String>)
    ensures
        match r {
            Ok(b) => base64_decoding(text@) == Some(b@),
            Err(_) => base64_decoding(text@) is None,
        },
{
    base64::engine::general_purpose::STANDARD.decode(text).map_err(|e| e.to_string())
}

/// Relies on `String::from_utf8`: it succeeds exactly on valid UTF-8, and
/// the string holds the given bytes; a refusal comes with its error as text.
#[verifier::external_body]
fn string_from_utf8(bytes: Vec<u8>) -> (r: Result<String, String>)
    ensures
        match r {
            Ok(s) => valid_utf8(bytes@) && encode_utf8(s@) == bytes@,
            Err(_) => !valid_utf8(bytes@),
        },
{
    String::from_utf8(bytes).map_err(|e| e.to_string())
}

/// Why a stored value could not be read.
#[derive(Debug)]
pub enum StorageError {
    /// No value is stored under this key.
    NotFound(String),
    /// The stored text is not base64; the decoder's reason.
    InvalidEncoding(String),
    /// The decoded bytes are not UTF-8; the reason.
    InvalidText(String),
}

impl StorageError {
    /// The message reported to the caller.
    pub fn message(&self) -> (r: String)
        ensures
            r@ == match self {
                StorageError::NotFound(k) => "Key '"@ + k@ + "' not found"@,
                StorageError::InvalidEncoding(e) => "Failed to decode base64: "@ + e@,
                StorageError::InvalidText(e) => "Failed to decode value: "@ + e@,
            },
    {
        match self {
            StorageError::NotFound(k) => {
                let mut r = String::from_str("Key '");
                r.append(k.as_str());
                r.append("' not found");
                r
            },
            StorageError::InvalidEncoding(e) => {
                let mut r = String::from_str("Failed to decode base64: ");
                r.append(e.as_str());
                r
            },
            StorageError::InvalidText(e) => {
                let mut r = String::from_str("Failed to decode value: ");
                r.append(e.as_str());
                r
            },
        }
    }
}

/// The value that stored text holds: its base64 decoding read as UTF-8.
pub open spec fn stored_value(text: Seq<char>) -> Option<Seq<char>> {
    match base64_decoding(text) {
        Some(b) => if valid_utf8(b) {
            Some(decode_utf8(b))
        } else {
            None
        },
        None => None,
    }
}

/// The name of the file that holds the value of `key`.
pub fn storage_file_name(key: &str) -> (r: String)
    ensures
        r@ == key@ + ".dat"@,
{
    let mut r = String::from_str(key);
    r.append(".dat");
    r
}

/// The text stored for `value`: the base64 of its UTF-8 bytes. Reading it
/// back gives `value` exactly.
pub fn encode_secret(value: &str) -> (r: String)
    requires
        encode_utf8(value@).len() / 3 * 4 + 4 <= usize::MAX,
    ensures
        r@ == base64_encoding(encode_utf8(value@)),
        stored_value(r@) == Some(value@),
{
    let bytes = value.as_bytes();
    let r = encode_base64(bytes);
    proof {
        encode_utf8_valid_utf8(value@);
        encode_utf8_decode_utf8(value@);
    }
    r
}

/// Reads the value out of stored text.
pub fn decode_secret(stored: &str) -> (r: Result<String, StorageError>)
    ensures
        match base64_decoding(stored@) {
            None => r is Err && r->Err_0 is InvalidEncoding,
            Some(b) => if valid_utf8(b) {
                r is Ok && r->Ok_0@ == decode_utf8(b)
            } else {
                r is Err && r->Err_0 is InvalidText
            },
        },
        match r {
            Ok(v) => stored_value(stored@) == Some(v@),
            Err(_) => stored_value(stored@) is None,
        },
{
    match decode_base64(stored) {
        Err(e) => Err(StorageError::InvalidEncoding(e)),
        Ok(bytes) => {
            match string_from_utf8(bytes) {
                Ok(s) => {
                    proof {
                        encode_utf8_decode_utf8(s@);
                    }
                    Ok(s)
                },
                Err(e) => Err(StorageError::InvalidText(e)),
            }
        },
    }
}

/// The value for `key`, given the text of its file, or `None` when it has
/// no file: that is "not found".
pub fn secure_storage_get(key: &str, stored: Option<String>) -> (r: Result<String, StorageError>)
    ensures
        match stored {
            None => match r {
                Err(StorageError::NotFound(k)) => k@ == key@,
                _ => false,
            },
            Some(t) => match r {
                Ok(v) => stored_value(t@) == Some(v@),
                Err(e) => stored_value(t@) is None && !(e is NotFound),
            },
        },
{
    match stored {
        None => Err(StorageError::NotFound(String::from_str(key))),
        Some(t) => decode_secret(t.as_str()),
    }
}

} // verus!
