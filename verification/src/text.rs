//! File contents as bytes and as text.
//!
//! A file holds bytes; the facade deals in text. The two are related by UTF-8:
//! a text is stored as its encoding, and bytes are text only where they are a
//! well-formed encoding.

use vstd::prelude::*;
use vstd::utf8::{
    decode_utf8, encode_utf8, encode_utf8_decode_utf8, encode_utf8_valid_utf8, valid_utf8,
};

verus! {

/// The text that `bytes` hold: their decoding where they are well-formed UTF-8,
/// nothing otherwise.
pub open spec fn text_of(bytes: Seq<u8>) -> Option<Seq<char>> {
    if valid_utf8(bytes) {
        Some(decode_utf8(bytes))
    } else {
        None
    }
}

/// The bytes that stand for `text` in a file.
pub open spec fn bytes_of(text: Seq<char>) -> Seq<u8> {
    encode_utf8(text)
}

/// Trusted: `String::from_utf8` of the standard library.
///
/// Its documentation says that the call succeeds exactly when the vector is
/// valid UTF-8, and that the string is then made of the very bytes handed in.
/// Neither is proved here. The detail of a failure is dropped.
#[verifier::external_body]
pub(crate) fn string_from_utf8(bytes: Vec<u8>) -> (text: Option<String>)
    ensures
        text is Some <==> valid_utf8(bytes@),
        text matches Some(s) ==> encode_utf8(s@) == bytes@,
{
    match String::from_utf8(bytes) {
        Ok(s) => Some(s),
        Err(_) => None,
    }
}

/// Trusted: `core::str::from_utf8` of the standard library.
///
/// Its documentation says that the call fails exactly when the slice is not
/// UTF-8. Only that verdict is kept; it is not proved here.
#[verifier::external_body]
pub(crate) fn slice_is_utf8(bytes: &[u8]) -> (valid: bool)
    ensures
        valid == valid_utf8(bytes@),
{
    match core::str::from_utf8(bytes) {
        Ok(_) => true,
        Err(_) => false,
    }
}

/// A stored text reads back as itself: the bytes kept for `text` are
/// well-formed, and decoding them gives `text` again.
pub proof fn stored_text_reads_back(text: Seq<char>)
    ensures
        text_of(bytes_of(text)) == Some(text),
{
    encode_utf8_valid_utf8(text);
    encode_utf8_decode_utf8(text);
}

} // verus!
