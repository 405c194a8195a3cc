//! Error values reported by the AES layer.

use vstd::prelude::*;

verus! {

/// The specific kind of failure that can occur.
#[derive(Debug, Clone)]
pub enum ErrorKind {
    /// The key handed to `encrypt` or `decrypt` does not have the exact
    /// length that the active cipher variant demands.
    KeyLengthError { expected: usize, got: usize },
    /// The underlying encryption primitive rejected the input.
    EncryptionError(String),
    /// The underlying decryption primitive rejected the input
    /// (for example a malformed ciphertext).
    DecryptionError(String),
    /// A numeric scheme index outside the enumerated range was requested.
    UnsupportedScheme { index: u32 },
}

/// An error of the AES layer. It is exactly its [`ErrorKind`]; the view of
/// an `Error` is that kind.
#[derive(Debug)]
pub struct Error {
    kind: ErrorKind,
}

impl View for Error {
    type V = ErrorKind;

    closed spec fn view(&self) -> ErrorKind {
        self.kind
    }
}

impl Error {
    /// Return the kind of this error.
    pub fn kind(&self) -> (k: &ErrorKind)
        ensures
            *k == self@,
    {
        &self.kind
    }

    pub(crate) fn encryption(msg: String) -> (e: Error)
        ensures
            e@ == ErrorKind::EncryptionError(msg),
    {
        Error { kind: ErrorKind::EncryptionError(msg) }
    }

    pub(crate) fn decryption(msg: String) -> (e: Error)
        ensures
            e@ == ErrorKind::DecryptionError(msg),
    {
        Error { kind: ErrorKind::DecryptionError(msg) }
    }

    pub(crate) fn keylen(expected: usize, got: usize) -> (e: Error)
        ensures
            e@ == (ErrorKind::KeyLengthError { expected, got }),
    {
        Error { kind: ErrorKind::KeyLengthError { expected, got } }
    }

    pub(crate) fn unsupported(index: u32) -> (e: Error)
        ensures
            e@ == (ErrorKind::UnsupportedScheme { index }),
    {
        Error { kind: ErrorKind::UnsupportedScheme { index } }
    }
}

} // verus!
