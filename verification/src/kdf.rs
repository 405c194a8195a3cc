//! Key derivation: hash the password with SHA-512 and truncate the digest
//! to the key length the active cipher demands. The derivation is a pure,
//! deterministic function of the password and the key length — no salt, no
//! iteration count, no randomness.

use vstd::prelude::*;
use vstd::utf8::encode_utf8;

verus! {

/// The SHA-512 digest of a byte sequence. The digest is a fixed function of
/// the input bytes alone; [`sha512_digest`] states its length.
pub uninterp spec fn sha512_of(data: Seq<u8>) -> Seq<u8>;

/// Relies on sha2::Sha512 (through the sha2::Digest trait): the SHA-512
/// digest is 64 bytes and a function of the input bytes alone.
#[verifier::external_body]
fn sha512_digest(data: &[u8]) -> (r: Vec<u8>)
    ensures
        r@ == sha512_of(data@),
        r@.len() == 64,
{
    <sha2::Sha512 as sha2::Digest>::digest(data).to_vec()
}

/// The derived key for a password and a key length: the SHA-512 digest of
/// the password's UTF-8 bytes, truncated (never padded) to `key_len` bytes.
/// A `key_len` beyond the digest's 64 bytes silently yields the whole
/// digest and nothing more.
pub open spec fn spec_derive_key(password: Seq<char>, key_len: int) -> Seq<u8> {
    let digest = sha512_of(encode_utf8(password));
    if key_len < 64 {
        digest.take(key_len)
    } else {
        digest
    }
}

/// Derive a `key_len`-byte key from a password.
pub fn derive_key_from_password(password: &String, key_len: usize) -> (key: Vec<u8>)
    ensures
        key@ == spec_derive_key(password@, key_len as int),
        key@.len() == if key_len < 64 { key_len as int } else { 64 },
{
    let mut vec = sha512_digest(password.as_str().as_bytes());
    vec.truncate(key_len);
    vec
}

} // verus!
