//! The verified wrapper around OpenSSL's symmetric AES primitives.
//!
//! The wrapper owns one resolved variant. It validates the key length on
//! every call, selects the fixed IV that the variant's IV length demands,
//! and only then invokes the underlying primitive. The IV is a hardcoded
//! constant per IV-length class — never random, never derived from the key
//! or the message — so encrypting the same plaintext under the same key
//! twice produces byte-identical ciphertext. That weakness is inherited
//! deliberately, for byte-compatibility with ciphertexts this design has
//! already produced.

use vstd::prelude::*;
use crate::openssl_aes::defs::{
    spec_iv_length, spec_key_length, spec_nid, key_length_of, iv_length_of, nid_of,
    OpenSslVariants,
};
use crate::openssl_aes::errors::{Error, ErrorKind};

verus! {

/// The largest input, in bytes, that the one-go EVP helpers accept: the C
/// interface underneath measures lengths in 32-bit signed integers, and the
/// Rust binding aborts — rather than fails — on anything longer.
pub const MAX_CIPHER_INPUT_LEN: usize = 0x7fff_ffff;

/// The fixed 16-byte IV: two runs of the bytes 0 through 7.
pub open spec fn spec_iv16() -> Seq<u8> {
    seq![0u8, 1, 2, 3, 4, 5, 6, 7, 0, 1, 2, 3, 4, 5, 6, 7]
}

/// The fixed 12-byte IV: the first 12 bytes of [`spec_iv16`].
pub open spec fn spec_iv12() -> Seq<u8> {
    seq![0u8, 1, 2, 3, 4, 5, 6, 7, 0, 1, 2, 3]
}

/// The IV handed to the primitive for variant `v`: the fixed constant of
/// the variant's declared IV length, or none when the wrapper recognizes
/// no IV length (in particular for ECB, which needs no IV).
pub open spec fn spec_iv(v: OpenSslVariants) -> Option<Seq<u8>> {
    match spec_iv_length(v) {
        Some(n) => if n == 16 {
            Some(spec_iv16())
        } else if n == 12 {
            Some(spec_iv12())
        } else {
            None
        },
        None => None,
    }
}

/// The bytes behind an optional borrowed IV.
pub open spec fn iv_view(iv: Option<&Vec<u8>>) -> Option<Seq<u8>> {
    match iv {
        Some(b) => Some(b@),
        None => None,
    }
}

/// What OpenSSL's encryption returns for the cipher registered under the
/// NID of variant `v`, key `key`, IV `iv` and plaintext `msg`: the
/// ciphertext, or `None` when the primitive rejects the input. The outcome
/// is a function of these arguments alone.
pub uninterp spec fn aes_encrypt_of(
    v: OpenSslVariants,
    key: Seq<u8>,
    iv: Option<Seq<u8>>,
    msg: Seq<u8>,
) -> Option<Seq<u8>>;

/// What OpenSSL's decryption returns for the cipher registered under the
/// NID of variant `v`, key `key`, IV `iv` and ciphertext `ctext`: the
/// plaintext, or `None` when the primitive rejects the input. The outcome
/// is a function of these arguments alone.
pub uninterp spec fn aes_decrypt_of(
    v: OpenSslVariants,
    key: Seq<u8>,
    iv: Option<Seq<u8>>,
    ctext: Seq<u8>,
) -> Option<Seq<u8>>;

/// Relies on openssl::symm::encrypt (one-go EVP encryption, padding on) with
/// the cipher that openssl::symm::Cipher::from_nid finds under `nid`; the
/// caller passes the NID belonging to `v`, a key and IV of exactly the
/// lengths the cipher demands, and a plaintext of at most
/// [`MAX_CIPHER_INPUT_LEN`] bytes — together these keep the call free of
/// panics (the binding aborts on a longer input, whose length does not fit
/// the C interface's 32-bit signed integers). The result is deterministic
/// in (cipher, key, IV, plaintext), and decrypting a returned ciphertext
/// with the same cipher, key and IV gives the plaintext back.
#[verifier::external_body]
fn evp_encrypt(
    v: &OpenSslVariants,
    nid: i32,
    key: &[u8],
    iv: Option<&Vec<u8>>,
    msg: &[u8],
) -> (r: Result<Vec<u8>, String>)
    requires
        nid == spec_nid(*v),
        key@.len() == spec_key_length(*v),
        iv_view(iv) == spec_iv(*v),
        msg@.len() <= MAX_CIPHER_INPUT_LEN,
    ensures
        r matches Ok(c) ==> aes_encrypt_of(*v, key@, iv_view(iv), msg@) == Some(c@)
            && aes_decrypt_of(*v, key@, iv_view(iv), c@) == Some(msg@),
        r matches Err(_) ==> aes_encrypt_of(*v, key@, iv_view(iv), msg@) is None,
{
    match openssl::symm::Cipher::from_nid(openssl::nid::Nid::from_raw(nid)) {
        Some(cipher) => openssl::symm::encrypt(cipher, key, iv.map(|b| &b[..]), msg)
            .map_err(|e| e.to_string()),
        None => Err(String::from("no cipher is registered under this identifier")),
    }
}

/// Relies on openssl::symm::decrypt (one-go EVP decryption, padding on) with
/// the cipher that openssl::symm::Cipher::from_nid finds under `nid`; the
/// caller passes the NID belonging to `v`, a key and IV of exactly the
/// lengths the cipher demands, and a ciphertext of at most
/// [`MAX_CIPHER_INPUT_LEN`] bytes — together these keep the call free of
/// panics (the binding aborts on a longer input, whose length does not fit
/// the C interface's 32-bit signed integers). The result is deterministic
/// in (cipher, key, IV, ciphertext).
#[verifier::external_body]
fn evp_decrypt(
    v: &OpenSslVariants,
    nid: i32,
    key: &[u8],
    iv: Option<&Vec<u8>>,
    ctext: &[u8],
) -> (r: Result<Vec<u8>, String>)
    requires
        nid == spec_nid(*v),
        key@.len() == spec_key_length(*v),
        iv_view(iv) == spec_iv(*v),
        ctext@.len() <= MAX_CIPHER_INPUT_LEN,
    ensures
        r matches Ok(p) ==> aes_decrypt_of(*v, key@, iv_view(iv), ctext@) == Some(p@),
        r matches Err(_) ==> aes_decrypt_of(*v, key@, iv_view(iv), ctext@) is None,
{
    match openssl::symm::Cipher::from_nid(openssl::nid::Nid::from_raw(nid)) {
        Some(cipher) => openssl::symm::decrypt(cipher, key, iv.map(|b| &b[..]), ctext)
            .map_err(|e| e.to_string()),
        None => Err(String::from("no cipher is registered under this identifier")),
    }
}

/// Encryption under variant `v` with the fixed IV that `v`'s IV length
/// selects: the ciphertext, or `None` when the primitive rejects the input.
pub open spec fn spec_encrypt(v: OpenSslVariants, key: Seq<u8>, msg: Seq<u8>) -> Option<Seq<u8>> {
    aes_encrypt_of(v, key, spec_iv(v), msg)
}

/// Decryption under variant `v` with the fixed IV that `v`'s IV length
/// selects: the plaintext, or `None` when the primitive rejects the input.
pub open spec fn spec_decrypt(v: OpenSslVariants, key: Seq<u8>, ctext: Seq<u8>) -> Option<Seq<u8>> {
    aes_decrypt_of(v, key, spec_iv(v), ctext)
}

/// A symmetric cipher resolved from one variant. It performs validated
/// encryption and decryption over byte buffers.
#[derive(Clone, Copy, Debug)]
pub struct OpensslAesWrapper {
    variant: OpenSslVariants,
}

impl View for OpensslAesWrapper {
    type V = OpenSslVariants;

    closed spec fn view(&self) -> OpenSslVariants {
        self.variant
    }
}

impl OpensslAesWrapper {
    /// A wrapper for the given variant.
    pub fn new(v: &OpenSslVariants) -> (w: OpensslAesWrapper)
        ensures
            w@ == *v,
    {
        OpensslAesWrapper { variant: *v }
    }

    /// The key length, in bytes, that this cipher demands.
    pub fn get_key_length(&self) -> (n: usize)
        ensures
            n == spec_key_length(self@),
    {
        key_length_of(&self.variant)
    }

    /// The IV length, in bytes, that this cipher demands, or `None` for a
    /// mode that takes no IV.
    pub fn get_iv_length(&self) -> (r: Option<usize>)
        ensures
            r == spec_iv_length(self@),
    {
        iv_length_of(&self.variant)
    }

    /// The fixed IV for this cipher: the hardcoded constant of the declared
    /// IV length. Only 16-byte and 12-byte IVs are recognized.
    fn get_iv(&self) -> (r: Option<Vec<u8>>)
        ensures
            r matches Some(b) ==> spec_iv(self@) == Some(b@),
            r is None ==> spec_iv(self@) is None,
    {
        match self.get_iv_length() {
            Some(16) => {
                let iv: Vec<u8> = vec![0u8, 1, 2, 3, 4, 5, 6, 7, 0, 1, 2, 3, 4, 5, 6, 7];
                proof {
                    assert(iv@ =~= spec_iv16());
                }
                Some(iv)
            },
            Some(12) => {
                let iv: Vec<u8> = vec![0u8, 1, 2, 3, 4, 5, 6, 7, 0, 1, 2, 3];
                proof {
                    assert(iv@ =~= spec_iv12());
                }
                Some(iv)
            },
            _ => None,
        }
    }

    /// Encrypt `msg` under `key`.
    ///
    /// Fails with `KeyLengthError` — and with nothing else — whenever the
    /// key's length differs from the variant's key length; it never
    /// truncates or pads the key. A plaintext longer than
    /// [`MAX_CIPHER_INPUT_LEN`] cannot be passed through the primitive's
    /// interface and fails with `EncryptionError` before reaching it. With a
    /// key of the right length and a plaintext within that bound it returns
    /// exactly the deterministic ciphertext of [`spec_encrypt`], and fails
    /// with `EncryptionError` precisely when the primitive rejects the
    /// input. A returned ciphertext decrypts under the same variant and key
    /// back to `msg`.
    pub fn encrypt(&self, key: &[u8], msg: &[u8]) -> (r: Result<Vec<u8>, Error>)
        ensures
            key@.len() != spec_key_length(self@) ==> (r matches Err(e) && e@ == (
            ErrorKind::KeyLengthError { expected: spec_key_length(self@), got: key@.len() as usize })),
            key@.len() == spec_key_length(self@) && msg@.len() > MAX_CIPHER_INPUT_LEN ==> (
            r matches Err(e) && e@ matches ErrorKind::EncryptionError(_)),
            key@.len() == spec_key_length(self@) && msg@.len() <= MAX_CIPHER_INPUT_LEN ==> match r {
                Ok(c) => spec_encrypt(self@, key@, msg@) == Some(c@)
                    && spec_decrypt(self@, key@, c@) == Some(msg@),
                Err(e) => spec_encrypt(self@, key@, msg@) is None
                    && e@ matches ErrorKind::EncryptionError(_),
            },
    {
        let expected_key_length = self.get_key_length();
        if expected_key_length != key.len() {
            return Err(Error::keylen(expected_key_length, key.len()));
        }
        if msg.len() > MAX_CIPHER_INPUT_LEN {
            return Err(Error::encryption("the plaintext is too long for the cipher interface".to_owned()));
        }
        let iv = self.get_iv();
        let nid = nid_of(&self.variant);
        match evp_encrypt(&self.variant, nid, key, iv.as_ref(), msg) {
            Ok(c) => Ok(c),
            Err(m) => Err(Error::encryption(m)),
        }
    }

    /// Decrypt `ctext` under `key`.
    ///
    /// Fails with `KeyLengthError` — and with nothing else — whenever the
    /// key's length differs from the variant's key length. A ciphertext
    /// longer than [`MAX_CIPHER_INPUT_LEN`] cannot be passed through the
    /// primitive's interface and fails with `DecryptionError` before
    /// reaching it. With a key of the right length and a ciphertext within
    /// that bound it returns exactly the deterministic plaintext of
    /// [`spec_decrypt`], and fails with `DecryptionError` precisely when
    /// the primitive rejects the input (for example malformed padding).
    /// Nothing here detects a wrong key of the right length: stream modes
    /// in particular "succeed" and return garbage bytes.
    pub fn decrypt(&self, key: &[u8], ctext: &[u8]) -> (r: Result<Vec<u8>, Error>)
        ensures
            key@.len() != spec_key_length(self@) ==> (r matches Err(e) && e@ == (
            ErrorKind::KeyLengthError { expected: spec_key_length(self@), got: key@.len() as usize })),
            key@.len() == spec_key_length(self@) && ctext@.len() > MAX_CIPHER_INPUT_LEN ==> (
            r matches Err(e) && e@ matches ErrorKind::DecryptionError(_)),
            key@.len() == spec_key_length(self@) && ctext@.len() <= MAX_CIPHER_INPUT_LEN ==> match r {
                Ok(p) => spec_decrypt(self@, key@, ctext@) == Some(p@),
                Err(e) => spec_decrypt(self@, key@, ctext@) is None
                    && e@ matches ErrorKind::DecryptionError(_),
            },
    {
        let expected_key_length = self.get_key_length();
        if expected_key_length != key.len() {
            return Err(Error::keylen(expected_key_length, key.len()));
        }
        if ctext.len() > MAX_CIPHER_INPUT_LEN {
            return Err(Error::decryption("the ciphertext is too long for the cipher interface".to_owned()));
        }
        let iv = self.get_iv();
        let nid = nid_of(&self.variant);
        match evp_decrypt(&self.variant, nid, key, iv.as_ref(), ctext) {
            Ok(p) => Ok(p),
            Err(m) => Err(Error::decryption(m)),
        }
    }
}

/// Determinism: encryption has no randomness anywhere in its path, so two
/// ciphertexts produced from the same variant, key and plaintext are
/// byte-identical. The hypotheses are exactly what two successful calls of
/// [`OpensslAesWrapper::encrypt`] ensure about their results.
pub proof fn lemma_encrypt_deterministic(
    v: OpenSslVariants,
    key: Seq<u8>,
    msg: Seq<u8>,
    c1: Seq<u8>,
    c2: Seq<u8>,
)
    requires
        spec_encrypt(v, key, msg) == Some(c1),
        spec_encrypt(v, key, msg) == Some(c2),
    ensures
        c1 == c2,
{
}

} // verus!
