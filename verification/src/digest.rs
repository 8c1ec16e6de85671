//! Content identifiers: the SHA-256 digest of a text, written in lower-case
//! hexadecimal.

use sha2::{Digest, Sha256};
use vstd::prelude::*;

verus! {

/// The SHA-256 digest of a byte string, as the `sha2` crate computes it.
///
/// The digest is not defined here: it is what `Sha256` returns for the
/// bytes, and contracts speak of it by this name.
pub uninterp spec fn sha256(data: Seq<u8>) -> Seq<u8>;

/// Calls `Digest::digest` of the `sha2` crate's `Sha256` on `data`, which
/// feeds the bytes to a new hasher and takes its result.
///
/// Not proved, but taken on trust: the bytes handed back are the digest of
/// `data`, and depend on `data` alone.
#[verifier::external_body]
fn sha256_digest(data: &[u8]) -> (digest: Vec<u8>)
    ensures
        digest@ == sha256(data@),
{
    Sha256::digest(data).to_vec()
}

/// The sixteen hexadecimal digits, in order of their value.
pub open spec fn hex_digits() -> Seq<char> {
    "0123456789abcdef"@
}

/// The character at position `i` of the lower-case hexadecimal form of
/// `bytes`: the high half of byte `i / 2` at even positions, its low half
/// at odd ones.
pub open spec fn hex_char_at(bytes: Seq<u8>, i: int) -> char {
    if i % 2 == 0 {
        hex_digits()[bytes[i / 2] as int / 16]
    } else {
        hex_digits()[bytes[i / 2] as int % 16]
    }
}

/// The lower-case hexadecimal form of `bytes`: two digits for each byte.
pub open spec fn hex_lower(bytes: Seq<u8>) -> Seq<char> {
    Seq::new(2 * bytes.len(), |i: int| hex_char_at(bytes, i))
}

/// The identifier of the text `text`: the SHA-256 digest of its UTF-8
/// bytes, in lower-case hexadecimal.
pub open spec fn digest_hex(text: Seq<char>) -> Seq<char> {
    hex_lower(sha256(vstd::utf8::encode_utf8(text)))
}

/// Writes `bytes` in lower-case hexadecimal.
pub fn to_hex(bytes: &[u8]) -> (hex: String)
    ensures
        hex@ == hex_lower(bytes@),
{
    let digits = "0123456789abcdef";
    proof {
        reveal_strlit("0123456789abcdef");
    }
    let mut hex = String::new();
    let mut i: usize = 0;
    while i < bytes.len()
        invariant
            i <= bytes.len(),
            digits@ == hex_digits(),
            digits@.len() == 16,
            digits.is_ascii(),
            hex@ == Seq::new(2 * (i as nat), |k: int| hex_char_at(bytes@, k)),
        decreases bytes.len() - i,
    {
        let byte = bytes[i];
        let high: usize = (byte / 16) as usize;
        let low: usize = (byte % 16) as usize;
        hex.append(digits.substring_ascii(high, high + 1));
        hex.append(digits.substring_ascii(low, low + 1));
        i += 1;
    }
    hex
}

/// The identifier of `text`: the SHA-256 digest of its bytes in lower-case
/// hexadecimal.
pub fn generate_hash(text: &str) -> (id: String)
    ensures
        id@ == digest_hex(text@),
{
    let digest = sha256_digest(text.as_bytes());
    to_hex(digest.as_slice())
}

} // verus!
