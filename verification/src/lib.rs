//! A small container library: callers accumulate field values, derive a
//! symmetric key from a password, pick an AES variant, and produce (or later
//! reverse) one opaque ciphertext blob over the concatenated fields.
//!
//! The cryptographic primitives come from OpenSSL; everything around them —
//! the variant registry, key derivation and truncation, key-length
//! validation, IV selection, and the builder state machine — is verified.

pub mod encrypted_box;
pub mod encrypted_box_builder;
pub mod kdf;
pub mod openssl_aes;
