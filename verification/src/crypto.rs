//! Digests and byte encodings supplied by the `sha2`, `hex` and `subtle` crates.

use vstd::prelude::*;
use sha2::Digest;
use subtle::ConstantTimeEq;

verus! {

/// The SHA-256 digest of a byte sequence.
pub uninterp spec fn sha256_digest(data: Seq<u8>) -> Seq<u8>;

/// Calls `sha2::Sha256::digest`. Claimed: the result is the digest of `data`
/// (named, not computed here) and, as the output type `U32` fixes, 32 bytes long.
#[verifier::external_body]
pub(crate) fn sha256(data: &[u8]) -> (d: Vec<u8>)
    ensures
        d@ == sha256_digest(data@),
        d@.len() == 32,
{
    sha2::Sha256::digest(data).to_vec()
}

/// The lower-case hexadecimal digit for a nibble.
pub open spec fn hex_digit_lower(n: u8) -> char {
    if n < 10 {
        ((n + 48) as u32) as char
    } else {
        ((n + 87) as u32) as char
    }
}

/// Lower-case hexadecimal text of a byte sequence, two digits per byte, high nibble first.
pub open spec fn hex_lower(data: Seq<u8>) -> Seq<char>
    decreases data.len(),
{
    if data.len() == 0 {
        Seq::empty()
    } else {
        seq![hex_digit_lower(data[0] / 16), hex_digit_lower(data[0] % 16)] + hex_lower(
            data.drop_first(),
        )
    }
}

/// Hexadecimal text has two digits per byte.
pub proof fn lemma_hex_lower_len(data: Seq<u8>)
    ensures
        hex_lower(data).len() == 2 * data.len(),
    decreases data.len(),
{
    if data.len() > 0 {
        lemma_hex_lower_len(data.drop_first());
    }
}

/// Whether a character is a lower-case hexadecimal digit (`0`-`9`, `a`-`f`).
pub open spec fn is_lower_hex_digit(c: char) -> bool {
    ('0' as u32 <= c as u32 <= '9' as u32) || ('a' as u32 <= c as u32 <= 'f' as u32)
}

/// Hexadecimal text is made of lower-case hexadecimal digits only.
pub proof fn lemma_hex_lower_digits(data: Seq<u8>)
    ensures
        forall|i: int| 0 <= i < hex_lower(data).len() ==> is_lower_hex_digit(#[trigger] hex_lower(data)[i]),
    decreases data.len(),
{
    lemma_hex_lower_len(data);
    if data.len() > 0 {
        lemma_hex_lower_digits(data.drop_first());
        lemma_hex_lower_len(data.drop_first());
        let hi = data[0] / 16;
        let lo = data[0] % 16;
        assert(is_lower_hex_digit(hex_digit_lower(hi)));
        assert(is_lower_hex_digit(hex_digit_lower(lo)));
        let h = hex_lower(data);
        let rest = hex_lower(data.drop_first());
        assert forall|i: int| 0 <= i < h.len() implies is_lower_hex_digit(#[trigger] h[i]) by {
            if i >= 2 {
                assert(h[i] == rest[i - 2]);
            }
        }
    }
}

/// Calls `hex::encode`. Claimed: the text is the table `0123456789abcdef` applied to the
/// high then the low nibble of each byte, in order, as the crate's source does.
#[verifier::external_body]
pub(crate) fn hex_encode(data: &[u8]) -> (s: String)
    ensures
        s@ == hex_lower(data@),
{
    hex::encode(data)
}

/// Calls `subtle::ConstantTimeEq::ct_eq` on two byte slices and converts the `Choice`.
/// Claimed: true exactly when the slices have the same length and the same bytes.
#[verifier::external_body]
pub(crate) fn constant_time_eq(a: &[u8], b: &[u8]) -> (r: bool)
    ensures
        r == (a@ == b@),
{
    bool::from(a.ct_eq(b))
}

} // verus!
