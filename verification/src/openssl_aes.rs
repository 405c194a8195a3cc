//! The AES layer: the variant registry, the error values, and the verified
//! wrapper around OpenSSL's symmetric encryption primitives.

pub mod defs;
pub mod errors;
pub mod wrapper;
