//! The built, immutable snapshot: the concatenated field bytes, the derived
//! key, and the resolved cipher. It performs the final encryption, and a
//! static reconstruction path performs decryption.
//!
//! The ciphertext carries no embedded metadata — no variant tag, no IV, no
//! length prefix — so reversing it needs the matching variant and password
//! supplied out of band. The recovered field buffer is an undifferentiated
//! blob: the delimiter-free concatenation loses field boundaries
//! irreversibly, and nothing here re-splits them.

use vstd::prelude::*;
use crate::kdf;
use crate::kdf::spec_derive_key;
use crate::openssl_aes::defs::{lemma_key_length_bounds, spec_key_length, OpenSslVariants};
use crate::openssl_aes::errors::{Error, ErrorKind};
use crate::openssl_aes::wrapper::{
    spec_decrypt, spec_encrypt, OpensslAesWrapper, MAX_CIPHER_INPUT_LEN,
};

verus! {

/// The mathematical content of an [`EncryptedBox`]: its field bytes, its
/// key bytes, and the variant its cipher resolves.
pub struct EncryptedBoxView {
    pub fields: Seq<u8>,
    pub key: Seq<u8>,
    pub variant: OpenSslVariants,
}

/// An encrypted box: an immutable triple of field bytes, key, and resolved
/// cipher. Produced through `EncryptedBoxBuilder::build` (forward path) or
/// [`EncryptedBox::decrypt`] (reverse path).
pub struct EncryptedBox {
    fields: Vec<u8>,
    key: Vec<u8>,
    scheme: OpensslAesWrapper,
}

impl View for EncryptedBox {
    type V = EncryptedBoxView;

    closed spec fn view(&self) -> EncryptedBoxView {
        EncryptedBoxView { fields: self.fields@, key: self.key@, variant: self.scheme@ }
    }
}

impl EncryptedBox {
    /// A box over the given field bytes, key, and cipher.
    pub fn new(fields: Vec<u8>, key: Vec<u8>, scheme: OpensslAesWrapper) -> (b: EncryptedBox)
        ensures
            b@.fields == fields@,
            b@.key == key@,
            b@.variant == scheme@,
    {
        EncryptedBox { fields, key, scheme }
    }

    /// The field bytes this box holds.
    pub fn fields(&self) -> (f: &Vec<u8>)
        ensures
            f@ == self@.fields,
    {
        &self.fields
    }

    /// Encrypt the field bytes under the box's key and cipher. Failures of
    /// the cipher wrapper — a key of the wrong length, a field buffer too
    /// long for the primitive's interface, or a rejected input — propagate
    /// unchanged; a builder-produced box cannot carry a wrong-length key,
    /// but that is checked on every call, never assumed.
    pub fn encrypt(&self) -> (r: Result<Vec<u8>, Error>)
        ensures
            self@.key.len() != spec_key_length(self@.variant) ==> (r matches Err(e) && e@ == (
            ErrorKind::KeyLengthError {
                expected: spec_key_length(self@.variant),
                got: self@.key.len() as usize,
            })),
            self@.key.len() == spec_key_length(self@.variant) && self@.fields.len()
                > MAX_CIPHER_INPUT_LEN ==> (r matches Err(e) && e@ matches
            ErrorKind::EncryptionError(_)),
            self@.key.len() == spec_key_length(self@.variant) && self@.fields.len()
                <= MAX_CIPHER_INPUT_LEN ==> match r {
                Ok(c) => spec_encrypt(self@.variant, self@.key, self@.fields) == Some(c@)
                    && spec_decrypt(self@.variant, self@.key, c@) == Some(self@.fields),
                Err(e) => spec_encrypt(self@.variant, self@.key, self@.fields) is None
                    && e@ matches ErrorKind::EncryptionError(_),
            },
    {
        self.scheme.encrypt(self.key.as_slice(), self.fields.as_slice())
    }

    /// Reverse path: resolve `v`, derive a key from `password` at `v`'s key
    /// length, decrypt `ciphertext`, and wrap the plaintext as a new box's
    /// field buffer. The derived key always has the exact length the cipher
    /// demands, so the only failures are a ciphertext too long for the
    /// primitive's interface and the primitive rejecting the ciphertext;
    /// within the length bound it succeeds precisely when [`spec_decrypt`]
    /// does.
    pub fn decrypt(password: String, ciphertext: &[u8], v: OpenSslVariants) -> (r: Result<
        EncryptedBox,
        Error,
    >)
        ensures
            r matches Ok(b) ==> b@.variant == v
                && b@.key == spec_derive_key(password@, spec_key_length(v) as int)
                && spec_decrypt(v, b@.key, ciphertext@) == Some(b@.fields),
            ciphertext@.len() <= MAX_CIPHER_INPUT_LEN ==> (r matches Err(e) ==> spec_decrypt(
                v,
                spec_derive_key(password@, spec_key_length(v) as int),
                ciphertext@,
            ) is None && e@ matches ErrorKind::DecryptionError(_)),
            ciphertext@.len() > MAX_CIPHER_INPUT_LEN ==> (r matches Err(e) && e@ matches
            ErrorKind::DecryptionError(_)),
    {
        let scheme = OpensslAesWrapper::new(&v);
        let key = kdf::derive_key_from_password(&password, scheme.get_key_length());
        proof {
            lemma_key_length_bounds(v);
        }
        match scheme.decrypt(key.as_slice(), ciphertext) {
            Ok(fields) => Ok(EncryptedBox::new(fields, key, scheme)),
            Err(e) => Err(e),
        }
    }
}

/// Round trip: for every variant, password and field buffer, decrypting a
/// ciphertext with the password and variant it was encrypted under recovers
/// exactly the concatenated fields. The first hypothesis is what
/// [`EncryptedBox::encrypt`] ensures about a ciphertext it returns for a
/// builder-produced box (whose key is the one derived from the password);
/// the second is what [`EncryptedBox::decrypt`] ensures about the box it
/// returns for that ciphertext.
pub proof fn lemma_round_trip(
    v: OpenSslVariants,
    password: Seq<char>,
    fields: Seq<u8>,
    ctext: Seq<u8>,
    recovered: Seq<u8>,
)
    requires
        spec_decrypt(v, spec_derive_key(password, spec_key_length(v) as int), ctext) == Some(
            fields,
        ),
        spec_decrypt(v, spec_derive_key(password, spec_key_length(v) as int), ctext) == Some(
            recovered,
        ),
    ensures
        recovered == fields,
{
}

} // verus!
