//! Credential digests: SHA-512 and hexadecimal decoding of configured hashes.
use vstd::prelude::*;
use vstd::utf8::encode_utf8;

verus! {

/// ASCII `0-9`, `A-F` or `a-f`.
pub open spec fn is_hex_digit(b: u8) -> bool {
    (48 <= b <= 57) || (65 <= b <= 70) || (97 <= b <= 102)
}

/// The value of a hex digit.
pub open spec fn hex_digit_value(b: u8) -> int {
    if 48 <= b <= 57 {
        b - 48
    } else if 65 <= b <= 70 {
        b - 55
    } else {
        b - 87
    }
}

/// Text that decodes as hexadecimal: an even number of hex digits.
pub open spec fn is_hex_text(t: Seq<u8>) -> bool {
    &&& t.len() % 2 == 0
    &&& forall|i: int| 0 <= i < t.len() ==> is_hex_digit(#[trigger] t[i])
}

/// The bytes that hexadecimal text stands for, two digits per byte, high digit first.
pub open spec fn hex_bytes(t: Seq<u8>) -> Seq<u8> {
    Seq::new(
        (t.len() / 2) as nat,
        |i: int| (hex_digit_value(t[2 * i]) * 16 + hex_digit_value(t[2 * i + 1])) as u8,
    )
}

/// The SHA-512 digest of a byte string.
pub uninterp spec fn sha512_of(data: Seq<u8>) -> Seq<u8>;

/// Relies on sha2's `Sha512` through `Digest::digest`: the 64-byte SHA-512 digest,
/// a function of the input bytes alone.
#[verifier::external_body]
pub(crate) fn sha512(data: &[u8]) -> (r: Vec<u8>)
    ensures
        r@ == sha512_of(data@),
        r@.len() == 64,
{
    <sha2::Sha512 as sha2::Digest>::digest(data).to_vec()
}

/// Relies on `hex::decode`: it succeeds exactly on an even number of hex digits
/// (either case), and turns each pair into one byte, high digit first.
#[verifier::external_body]
pub(crate) fn decode_hex(text: &str) -> (r: Option<Vec<u8>>)
    ensures
        r is Some <==> is_hex_text(encode_utf8(text@)),
        r matches Some(v) ==> v@ == hex_bytes(encode_utf8(text@)),
{
    hex::decode(text).ok()
}

/// Whether a digest equals the bytes that a configured hex text stands for; text
/// that is not hex matches no digest.
pub fn digest_matches_hex(digest: &[u8], configured: &str) -> (r: bool)
    ensures
        r == (is_hex_text(encode_utf8(configured@)) && digest@ == hex_bytes(encode_utf8(configured@))),
{
    match decode_hex(configured) {
        Some(expected) => bytes_equal(digest, expected.as_slice()),
        None => false,
    }
}

/// Byte-for-byte comparison of two byte strings.
pub fn bytes_equal(a: &[u8], b: &[u8]) -> (r: bool)
    ensures
        r == (a@ == b@),
{
    if a.len() != b.len() {
        return false;
    }
    let mut i: usize = 0;
    while i < a.len()
        invariant
            a@.len() == b@.len(),
            0 <= i <= a@.len(),
            forall|j: int| 0 <= j < i ==> a@[j] == b@[j],
        decreases a@.len() - i,
    {
        if a[i] != b[i] {
            return false;
        }
        i = i + 1;
    }
    assert(a@ =~= b@);
    true
}

} // verus!
