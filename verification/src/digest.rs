//! SHA-256 digests and their lowercase hexadecimal rendering.
use sha2::Digest;
use vstd::prelude::*;
use vstd::utf8::encode_utf8;

use crate::text::{ascii_lowercase, is_unicode_whitespace, lowercased, trim_end_spec, trim_start_spec, trimmed};

verus! {

/// The SHA-256 digest of a byte sequence, as `sha2::Sha256` computes it.
pub uninterp spec fn sha256(data: Seq<u8>) -> Seq<u8>;

/// Calls `sha2::Sha256::digest`: the result is `sha256` of the input and, as
/// the crate fixes SHA-256's output size, 32 bytes long.
#[verifier::external_body]
pub(crate) fn sha256_digest(data: &[u8]) -> (out: Vec<u8>)
    ensures
        out@ == sha256(data@),
        out@.len() == 32,
{
    sha2::Sha256::digest(data).to_vec()
}

/// The lowercase hexadecimal digit for `d` in `0..16`.
pub open spec fn hex_digit(d: int) -> char {
    seq!['0', '1', '2', '3', '4', '5', '6', '7', '8', '9', 'a', 'b', 'c', 'd', 'e', 'f'][d]
}

/// Lowercase hexadecimal rendering of bytes: two digits per byte, high
/// nibble first.
pub open spec fn hex_lower(bytes: Seq<u8>) -> Seq<char>
    decreases bytes.len(),
{
    if bytes.len() == 0 {
        Seq::empty()
    } else {
        hex_lower(bytes.drop_last()) + seq![
            hex_digit((bytes.last() / 16) as int),
            hex_digit((bytes.last() % 16) as int),
        ]
    }
}

/// Whether `c` is one of the digits `0`-`9`, `a`-`f`.
pub open spec fn is_lower_hex_char(c: char) -> bool {
    (48 <= (c as u32) <= 57) || (97 <= (c as u32) <= 102)
}

proof fn lemma_hex_digit(d: int)
    requires
        0 <= d < 16,
    ensures
        is_lower_hex_char(hex_digit(d)),
{
    let digits = seq!['0', '1', '2', '3', '4', '5', '6', '7', '8', '9', 'a', 'b', 'c', 'd', 'e', 'f'];
    assert(digits[d] == hex_digit(d));
    assert(forall|i: int| 0 <= i < 16 ==> is_lower_hex_char(#[trigger] digits[i]));
}

proof fn lemma_hex_lower_chars(b: Seq<u8>)
    ensures
        forall|i: int| 0 <= i < hex_lower(b).len() ==> is_lower_hex_char(#[trigger] hex_lower(b)[i]),
    decreases b.len(),
{
    if b.len() > 0 {
        let prev = hex_lower(b.drop_last());
        let hi = hex_digit((b.last() / 16) as int);
        let lo = hex_digit((b.last() % 16) as int);
        lemma_hex_lower_chars(b.drop_last());
        lemma_hex_digit((b.last() / 16) as int);
        lemma_hex_digit((b.last() % 16) as int);
        let h = hex_lower(b);
        assert(h == prev + seq![hi, lo]);
        assert forall|i: int| 0 <= i < h.len() implies is_lower_hex_char(#[trigger] h[i]) by {
            if i < prev.len() {
                assert(h[i] == prev[i]);
            } else if i == prev.len() {
                assert(h[i] == hi);
            } else {
                assert(h[i] == lo);
            }
        }
    }
}

proof fn lemma_hex_lower_len(b: Seq<u8>)
    ensures
        hex_lower(b).len() == 2 * b.len(),
    decreases b.len(),
{
    if b.len() > 0 {
        lemma_hex_lower_len(b.drop_last());
    }
}

/// Lowercase hex text is its own trimmed, lowercased form.
pub proof fn lemma_hex_lower_normalized(b: Seq<u8>)
    ensures
        lowercased(trimmed(hex_lower(b))) == hex_lower(b),
{
    let h = hex_lower(b);
    lemma_hex_lower_chars(b);
    if h.len() > 0 {
        assert(is_lower_hex_char(h[0]));
        assert(!is_unicode_whitespace(h[0]));
        assert(is_lower_hex_char(h.last()));
        assert(!is_unicode_whitespace(h.last()));
    }
    assert(trim_start_spec(h) == h);
    assert(trim_end_spec(h) == h);
    assert(trimmed(h) == h);
    assert(ascii_lowercase(h) =~= h);
}

/// Calls `hex::encode`, which renders each byte as two lowercase hex digits,
/// high nibble first (its table is `0123456789abcdef`).
#[verifier::external_body]
pub(crate) fn hex_encode(bytes: &[u8]) -> (s: String)
    ensures
        s@ == hex_lower(bytes@),
{
    hex::encode(bytes)
}

/// The UTF-8 bytes of a string, copied into a vector.
pub fn utf8_bytes(s: &str) -> (v: Vec<u8>)
    ensures
        v@ == encode_utf8(s@),
{
    let b = s.as_bytes();
    let mut v: Vec<u8> = Vec::new();
    let mut i: usize = 0;
    while i < b.len()
        invariant
            b@ == encode_utf8(s@),
            i <= b@.len(),
            v@ == b@.take(i as int),
        decreases b@.len() - i,
    {
        v.push(b[i]);
        assert(b@.take(i as int).push(b@[i as int]) =~= b@.take(i + 1));
        i = i + 1;
    }
    assert(b@.take(b@.len() as int) =~= b@);
    v
}

/// The lowercase hex SHA-256 digest of a byte sequence.
pub open spec fn sha256_hex_spec(data: Seq<u8>) -> Seq<char> {
    hex_lower(sha256(data))
}

/// The lowercase hex SHA-256 digest of `data`.
pub fn sha256_hex(data: &[u8]) -> (s: String)
    ensures
        s@ == sha256_hex_spec(data@),
        s@.len() == 64,
        forall|i: int| 0 <= i < s@.len() ==> is_lower_hex_char(#[trigger] s@[i]),
{
    let digest = sha256_digest(data);
    proof {
        lemma_hex_lower_len(digest@);
        lemma_hex_lower_chars(digest@);
    }
    hex_encode(digest.as_slice())
}

/// The webhook signature of `payload` under `secret`: the lowercase hex
/// SHA-256 digest of the UTF-8 bytes of `secret`, a colon, and `payload`.
pub open spec fn signature_spec(secret: Seq<char>, payload: Seq<char>) -> Seq<char> {
    sha256_hex_spec(encode_utf8(secret) + seq![58u8] + encode_utf8(payload))
}

/// Computes the webhook signature of `payload` under `secret`.
pub fn signature_for(secret: &str, payload: &str) -> (sig: String)
    ensures
        sig@ == signature_spec(secret@, payload@),
        sig@.len() == 64,
        forall|i: int| 0 <= i < sig@.len() ==> is_lower_hex_char(#[trigger] sig@[i]),
{
    let mut data = utf8_bytes(secret);
    data.push(58u8);
    let mut rest = utf8_bytes(payload);
    data.append(&mut rest);
    assert(data@ =~= encode_utf8(secret@) + seq![58u8] + encode_utf8(payload@));
    sha256_hex(data.as_slice())
}

} // verus!
