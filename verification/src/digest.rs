//! Content digests: BLAKE3 over bytes, rendered as `blake3:` plus lowercase hex.
use vstd::prelude::*;
use crate::text::concat2;

verus! {

/// The lowercase hexadecimal rendering of the BLAKE3 hash of `bytes`.
pub uninterp spec fn blake3_hex(bytes: Seq<u8>) -> Seq<char>;

pub open spec fn is_lower_hex(c: char) -> bool {
    ('0' <= c <= '9') || ('a' <= c <= 'f')
}

/// `blake3::hash(bytes).to_hex()`: the 32-byte BLAKE3 hash of `bytes`, as 64
/// lowercase hexadecimal characters.  The contract names the result and states
/// its shape, which `Hash::to_hex` writes from the table `0123456789abcdef`.
#[verifier::external_body]
fn blake3_hex_string(bytes: &[u8]) -> (r: String)
    ensures
        r@ == blake3_hex(bytes@),
        r@.len() == 64,
        forall|i: int| 0 <= i < r@.len() ==> is_lower_hex(#[trigger] r@[i]),
{
    blake3::hash(bytes).to_hex().as_str().to_owned()
}

/// The hex rendering of the BLAKE3 hash of `bytes`.
pub fn blake3_hex_of_bytes(bytes: &[u8]) -> (r: String)
    ensures
        r@ == blake3_hex(bytes@),
        r@.len() == 64,
{
    blake3_hex_string(bytes)
}

/// `blake3:` followed by the hex rendering of the BLAKE3 hash of `bytes`.
pub open spec fn prefixed_digest(bytes: Seq<u8>) -> Seq<char> {
    "blake3:"@ + blake3_hex(bytes)
}

/// The prefixed BLAKE3 digest of `bytes`.
pub fn blake3_digest(bytes: &[u8]) -> (r: String)
    ensures
        r@ == prefixed_digest(bytes@),
        r@.len() == "blake3:"@.len() + 64,
{
    let hex = blake3_hex_string(bytes);
    concat2("blake3:", hex.as_str())
}

/// The bytes of a text, in UTF-8.
pub fn utf8_bytes(s: &str) -> (r: Vec<u8>)
    ensures
        r@ == vstd::utf8::encode_utf8(s@),
{
    let b = s.as_bytes();
    let mut r: Vec<u8> = Vec::new();
    let mut i: usize = 0;
    while i < b.len()
        invariant
            i <= b@.len(),
            b@ == vstd::utf8::encode_utf8(s@),
            r@ == b@.take(i as int),
        decreases b@.len() - i,
    {
        r.push(b[i]);
        assert(b@.take(i as int).push(b@[i as int]) =~= b@.take(i + 1));
        i = i + 1;
    }
    assert(b@.take(b@.len() as int) =~= b@);
    r
}

} // verus!
