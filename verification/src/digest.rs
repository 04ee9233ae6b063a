//! Content digests for packet correlation.
//!
//! A packet's identity on the wire is the lowercase hex encoding of the
//! SHA-256 digest of its serialized form. The digest itself comes from the
//! `sha2` crate and is named, not restated, here; the hex encoding is
//! specified exactly.

use vstd::prelude::*;
use sha2::Digest;

verus! {

/// The SHA-256 digest of a byte sequence. The algorithm is fixed by its
/// standard; restating it here would prove nothing, so the digest is only
/// named and every contract speaks through this name.
pub uninterp spec fn sha256_of(bytes: Seq<u8>) -> Seq<u8>;

/// The lowercase hex digit for a value below sixteen.
pub open spec fn hex_digit(n: u8) -> char
    recommends
        n < 16,
{
    if n == 0 {
        '0'
    } else if n == 1 {
        '1'
    } else if n == 2 {
        '2'
    } else if n == 3 {
        '3'
    } else if n == 4 {
        '4'
    } else if n == 5 {
        '5'
    } else if n == 6 {
        '6'
    } else if n == 7 {
        '7'
    } else if n == 8 {
        '8'
    } else if n == 9 {
        '9'
    } else if n == 10 {
        'a'
    } else if n == 11 {
        'b'
    } else if n == 12 {
        'c'
    } else if n == 13 {
        'd'
    } else if n == 14 {
        'e'
    } else {
        'f'
    }
}

/// Lowercase hex encoding: two digits per byte, high nibble first.
pub open spec fn spec_hex_lower(b: Seq<u8>) -> Seq<char>
    decreases b.len(),
{
    if b.len() == 0 {
        Seq::empty()
    } else {
        spec_hex_lower(b.drop_last()) + seq![
            hex_digit(b.last() / 16),
            hex_digit((b.last() % 16) as u8),
        ]
    }
}

/// A hex encoding is twice as long as its input and all ASCII.
pub proof fn lemma_hex_lower_shape(b: Seq<u8>)
    ensures
        spec_hex_lower(b).len() == 2 * b.len(),
        vstd::utf8::is_ascii_chars(spec_hex_lower(b)),
    decreases b.len(),
{
    if b.len() > 0 {
        lemma_hex_lower_shape(b.drop_last());
    }
}

/// Relies on `sha2::Sha256` (through the `Digest` trait): the digest is a
/// function of the input bytes alone and is 32 bytes long.
#[verifier::external_body]
pub(crate) fn sha256(data: &Vec<u8>) -> (r: Vec<u8>)
    ensures
        r@ == sha256_of(data@),
        r@.len() == 32,
{
    sha2::Sha256::digest(data.as_slice()).to_vec()
}

/// Relies on `hex::encode`: the result is the lowercase hex encoding of
/// the input, two digits per byte, high nibble first.
#[verifier::external_body]
pub(crate) fn hex_encode(data: &Vec<u8>) -> (r: String)
    ensures
        r@ == spec_hex_lower(data@),
{
    hex::encode(data.as_slice())
}

} // verus!
