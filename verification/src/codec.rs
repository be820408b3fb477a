//! Percent-decoding of URL query values, supplied by the `urlencoding` crate.

use vstd::prelude::*;
use vstd::utf8::{decode_utf8, encode_utf8, valid_utf8};

verus! {

/// The value of an ASCII hexadecimal digit (either case).
pub open spec fn hex_value(b: u8) -> Option<u8> {
    if 48 <= b && b <= 57 {
        Some((b - 48) as u8)
    } else if 65 <= b && b <= 70 {
        Some((b - 55) as u8)
    } else if 97 <= b && b <= 102 {
        Some((b - 87) as u8)
    } else {
        None
    }
}

/// Percent-decoding of bytes: each `%` followed by two hexadecimal digits
/// stands for the byte they spell; every other byte, a lone `%` and `+`
/// included, stands for itself.
pub open spec fn percent_decode(b: Seq<u8>) -> Seq<u8>
    decreases b.len(),
{
    if b.len() == 0 {
        Seq::empty()
    } else if b[0] == 37 && b.len() >= 3 && hex_value(b[1]) is Some && hex_value(b[2]) is Some {
        seq![(hex_value(b[1]).unwrap() * 16 + hex_value(b[2]).unwrap()) as u8] + percent_decode(
            b.skip(3),
        )
    } else {
        seq![b[0]] + percent_decode(b.drop_first())
    }
}

/// The percent-decoded text of `s`, or the empty text when the decoded bytes
/// are not UTF-8.
pub open spec fn decoded_or_empty(s: Seq<char>) -> Seq<char> {
    let bytes = percent_decode(encode_utf8(s));
    if valid_utf8(bytes) {
        decode_utf8(bytes)
    } else {
        Seq::empty()
    }
}

/// Calls `urlencoding::decode`, turning its UTF-8 error into `None`. Claimed, as
/// the crate's `decode_binary` and `String::from_utf8` do: the UTF-8 bytes of
/// `data` are percent-decoded; the result is the text they spell when they are
/// valid UTF-8, and `None` otherwise.
#[verifier::external_body]
fn url_decode(data: &str) -> (r: Option<String>)
    ensures
        r is Some <==> valid_utf8(percent_decode(encode_utf8(data@))),
        r matches Some(s) ==> s@ == decode_utf8(percent_decode(encode_utf8(data@))),
{
    match urlencoding::decode(data) {
        Ok(text) => Some(text.into_owned()),
        Err(_) => None,
    }
}

/// Percent-decodes a query value, giving the empty string when the result is
/// not UTF-8.
pub fn decode_or_empty(data: &str) -> (s: String)
    ensures
        s@ == decoded_or_empty(data@),
{
    match url_decode(data) {
        Some(s) => s,
        None => String::new(),
    }
}

} // verus!
