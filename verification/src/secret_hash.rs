//! The one-way hash under which one-time codes and refresh tokens are stored:
//! SHA-256 of the UTF-8 bytes, written as lowercase hexadecimal.
use vstd::prelude::*;
use vstd::utf8::encode_utf8;
use sha2::{Digest, Sha256};

verus! {

/// The SHA-256 digest of `data`, as the `sha2` crate computes it.
pub uninterp spec fn sha256(data: Seq<u8>) -> Seq<u8>;

/// Trusted: `<sha2::Sha256 as Digest>::digest`. The digest is a function of
/// the input bytes alone (named [`sha256`]) and is 32 bytes long (the output
/// size `U32` of `Sha256`). The compression function itself is not stated.
#[verifier::external_body]
fn sha256_digest(data: &[u8]) -> (res: Vec<u8>)
    ensures
        res@ == sha256(data@),
        res@.len() == 32,
{
    Sha256::digest(data).to_vec()
}

/// The lowercase hexadecimal digit for `n` (meaningful for `n < 16`).
pub open spec fn hex_digit(n: u8) -> char {
    if n < 10 {
        (('0' as u8) + n) as char
    } else {
        (('a' as u8) + (n - 10)) as char
    }
}

/// `data` written as lowercase hexadecimal, two digits per byte, high half first.
pub open spec fn hex_lower(data: Seq<u8>) -> Seq<char> {
    Seq::new(
        2 * data.len(),
        |i: int|
            if i % 2 == 0 {
                hex_digit(data[i / 2] / 16)
            } else {
                hex_digit(data[i / 2] % 16)
            },
    )
}

/// Whether `c` is one of `0-9a-f`.
pub open spec fn is_lower_hex_digit(c: char) -> bool {
    ('0' <= c <= '9') || ('a' <= c <= 'f')
}

/// Trusted: `hex::encode`, which maps each byte to two characters of
/// `0123456789abcdef`, the high four bits first.
#[verifier::external_body]
fn hex_encode(data: &[u8]) -> (res: String)
    ensures
        res@ == hex_lower(data@),
{
    hex::encode(data)
}

/// The stored form of a secret with the characters `secret`.
pub open spec fn secret_digest_text(secret: Seq<char>) -> Seq<char> {
    hex_lower(sha256(encode_utf8(secret)))
}

/// Hashes a secret (a one-time code or a refresh token) for storage.
pub fn hash_secret(secret: &str) -> (res: String)
    ensures
        res@ == secret_digest_text(secret@),
        res@.len() == 64,
        forall|i: int| 0 <= i < 64 ==> is_lower_hex_digit(#[trigger] res@[i]),
{
    let digest = sha256_digest(secret.as_bytes());
    let res = hex_encode(digest.as_slice());
    assert forall|i: int| 0 <= i < 64 implies is_lower_hex_digit(#[trigger] res@[i]) by {
        let b = digest@[i / 2];
        assert(b / 16 < 16 && b % 16 < 16);
    }
    res
}

} // verus!
