//! The crate's trusted boundary to the encoding crates it is built on.
//!
//! Each wrapper here makes exactly one outside call; its contract states
//! what that call's own documentation promises, over the spec functions of
//! `text` or over a named, uninterpreted result.

use vstd::prelude::*;

verus! {

use crate::text::{hex_of, percent_of, ascii_seq};

/// The base64 (standard alphabet, padded) rendering of a byte sequence, as
/// `base64::encode` produces it. Named, not written out: the contracts of
/// this crate only ever pass it along.
pub uninterp spec fn b64_encoding(b: Seq<u8>) -> Seq<char>;

/// What `base64::decode` makes of a character sequence: the decoded bytes,
/// or nothing where the input is not valid standard base64.
pub uninterp spec fn b64_decoding(s: Seq<char>) -> Option<Seq<u8>>;

/// A character of the standard base64 alphabet, including the `=` padding.
pub open spec fn is_base64_char(c: char) -> bool {
    ('A' <= c && c <= 'Z') || ('a' <= c && c <= 'z') || ('0' <= c && c <= '9') || c == '+' || c
        == '/' || c == '='
}

/// What `String::from_utf8` makes of a byte sequence: its characters, or
/// nothing where the bytes are not valid UTF-8.
pub uninterp spec fn utf8_decoding(b: Seq<u8>) -> Option<Seq<char>>;

/// Relies on `String::from_utf8`: the string the bytes decode to, or `None`
/// where they are not valid UTF-8.
#[verifier::external_body]
pub(crate) fn utf8_string(bytes: Vec<u8>) -> (r: Option<String>)
    ensures
        match r {
            Some(s) => utf8_decoding(bytes@) == Some(s@),
            None => utf8_decoding(bytes@) == None::<Seq<char>>,
        },
{
    String::from_utf8(bytes).ok()
}

/// Relies on `hex::encode`: lowercase hex, two digits per byte, high nibble
/// first.
#[verifier::external_body]
pub(crate) fn hex_encode(b: &Vec<u8>) -> (r: String)
    ensures
        r@ == hex_of(b@),
{
    hex::encode(b.as_slice())
}

/// Relies on `base64::encode`: standard-alphabet base64 of the input bytes.
#[verifier::external_body]
pub(crate) fn b64_encode(b: &Vec<u8>) -> (r: String)
    ensures
        r@ == b64_encoding(b@),
        forall|i: int| 0 <= i < r@.len() ==> is_base64_char(#[trigger] r@[i]),
{
    base64::encode(b.as_slice())
}

/// Relies on `base64::decode`: the bytes the standard-alphabet base64 input
/// decodes to, or `None` where the input is not valid base64.
#[verifier::external_body]
pub(crate) fn b64_decode(s: &str) -> (r: Option<Vec<u8>>)
    ensures
        match r {
            Some(v) => b64_decoding(s@) == Some(v@),
            None => b64_decoding(s@) == None::<Seq<u8>>,
        },
{
    match base64::decode(s) {
        Ok(v) => Some(v),
        Err(_) => None,
    }
}

/// Relies on `urlencoding::encode`: percent-encodes every byte except ASCII
/// alphanumerics and `-`, `.`, `_`, `~`, with uppercase hex digits.
#[verifier::external_body]
pub(crate) fn url_encode(s: &str) -> (r: String)
    requires
        ascii_seq(s@),
    ensures
        r@ == percent_of(s@),
{
    urlencoding::encode(s).into_owned()
}

} // verus!
