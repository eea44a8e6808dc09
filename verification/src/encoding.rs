use base64::Engine;
use vstd::prelude::*;

verus! {

/// What `hex::decode` returns on a given string: the bytes it encodes in
/// hexadecimal, or nothing when the string is not valid even-length hex.
pub uninterp spec fn hex_decode(s: Seq<char>) -> Option<Seq<u8>>;

/// What base64's standard-alphabet `decode` returns on a given string: the
/// bytes it encodes, or nothing when the string is not valid base64.
pub uninterp spec fn base64_decode(s: Seq<char>) -> Option<Seq<u8>>;

/// What `String::from_utf8` returns on a given byte sequence: the text the
/// bytes encode in UTF-8, or nothing when they are not valid UTF-8.
pub open spec fn utf8_decode(b: Seq<u8>) -> Option<Seq<char>> {
    if vstd::utf8::valid_utf8(b) {
        Some(vstd::utf8::decode_utf8(b))
    } else {
        None
    }
}

/// Relies on hex::decode: it returns the bytes the string spells in
/// hexadecimal, and fails exactly on strings that are not even-length hex.
#[verifier::external_body]
pub(crate) fn hex_decode_str(s: &str) -> (r: Option<Vec<u8>>)
    ensures
        match r {
            Some(b) => hex_decode(s@) == Some(b@),
            None => hex_decode(s@) is None,
        },
{
    match hex::decode(s) {
        Ok(b) => Some(b),
        Err(_) => None,
    }
}

/// Relies on base64's `Engine::decode` with the standard engine: it returns
/// the bytes the string encodes, and fails exactly on invalid base64.
#[verifier::external_body]
pub(crate) fn base64_decode_str(s: &str) -> (r: Option<Vec<u8>>)
    ensures
        match r {
            Some(b) => base64_decode(s@) == Some(b@),
            None => base64_decode(s@) is None,
        },
{
    match base64::engine::general_purpose::STANDARD.decode(s) {
        Ok(b) => Some(b),
        Err(_) => None,
    }
}

/// Relies on String::from_utf8: it returns the text the bytes encode in
/// UTF-8, and fails exactly on byte sequences that are not valid UTF-8.
#[verifier::external_body]
pub(crate) fn utf8_to_string(b: Vec<u8>) -> (r: Option<String>)
    ensures
        match r {
            Some(s) => utf8_decode(b@) == Some(s@),
            None => utf8_decode(b@) is None,
        },
{
    match String::from_utf8(b) {
        Ok(s) => Some(s),
        Err(_) => None,
    }
}

} // verus!
