//! A non-consuming builder for an encrypted box.
//!
//! The builder accumulates field bytes, tracks a password, and holds the
//! active cipher. Setting the password, or switching the cipher while a
//! password is set, immediately re-derives the key at the active cipher's
//! key length, so a keyed builder always holds a key of exactly that
//! length. Building snapshots the current state and leaves the builder
//! unchanged and reusable.

use vstd::prelude::*;
use vstd::utf8::encode_utf8;
use crate::encrypted_box::EncryptedBox;
use crate::kdf;
use crate::kdf::spec_derive_key;
use crate::openssl_aes::defs::{lemma_key_length_bounds, spec_key_length, OpenSslVariants};
use crate::openssl_aes::wrapper::OpensslAesWrapper;

verus! {

/// The mathematical content of an [`EncryptedBoxBuilder`]: the accumulated
/// field bytes, the derived key bytes, the password (if one was ever set),
/// and the variant of the active cipher.
pub struct BuilderView {
    pub fields: Seq<u8>,
    pub key: Seq<u8>,
    pub password: Option<Seq<char>>,
    pub variant: OpenSslVariants,
}

/// The field bytes contributed by a sequence of fields: each field's UTF-8
/// bytes, concatenated in order, with no delimiter and no length prefix.
pub open spec fn concat_fields(fields: Seq<Seq<char>>) -> Seq<u8>
    decreases fields.len(),
{
    if fields.len() == 0 {
        Seq::empty()
    } else {
        concat_fields(fields.drop_last()) + encode_utf8(fields.last())
    }
}

/// A mutable accumulator that assembles an encrypted box's inputs. Each
/// mutating call updates the builder in place; `build` may be called any
/// number of times.
pub struct EncryptedBoxBuilder {
    cipher: OpensslAesWrapper,
    fields: Vec<u8>,
    key: Vec<u8>,
    password: Option<String>,
}

/// The failure of `build` on a builder that never received a password:
/// it carries the cause as text.
#[derive(Debug)]
pub struct BuildError {
    cause: String,
}

impl View for BuildError {
    type V = Seq<char>;

    closed spec fn view(&self) -> Seq<char> {
        self.cause@
    }
}

impl BuildError {
    /// A build error with the given cause.
    pub fn new(cause: &str) -> (e: BuildError)
        ensures
            e@ == cause@,
    {
        BuildError { cause: cause.to_owned() }
    }

    /// The cause as text.
    pub fn cause(&self) -> (c: &String)
        ensures
            c@ == self@,
    {
        &self.cause
    }
}

impl View for EncryptedBoxBuilder {
    type V = BuilderView;

    closed spec fn view(&self) -> BuilderView {
        BuilderView {
            fields: self.fields@,
            key: self.key@,
            password: match self.password {
                Some(p) => Some(p@),
                None => None,
            },
            variant: self.cipher@,
        }
    }
}

impl EncryptedBoxBuilder {
    /// The key/cipher pairing invariant: while a password is set, the key
    /// is the one derived from it at the active cipher's key length — and
    /// so has exactly that length; while none was ever set, the key is
    /// absent (empty). Construction establishes it and every method
    /// preserves it.
    pub open spec fn wf(&self) -> bool {
        match self@.password {
            Some(p) => self@.key == spec_derive_key(p, spec_key_length(self@.variant) as int)
                && self@.key.len() == spec_key_length(self@.variant),
            None => self@.key == Seq::<u8>::empty(),
        }
    }

    /// A builder with the given cipher, no fields, no password, no key.
    pub fn new(cipher: OpensslAesWrapper) -> (b: EncryptedBoxBuilder)
        ensures
            b@.fields == Seq::<u8>::empty(),
            b@.key == Seq::<u8>::empty(),
            b@.password is None,
            b@.variant == cipher@,
            b.wf(),
    {
        EncryptedBoxBuilder { cipher, fields: Vec::new(), key: Vec::new(), password: None }
    }

    /// Snapshot the current state into an encrypted box. Fails — with a
    /// `BuildError` naming the missing key, and with nothing else — exactly
    /// when no key is set, which by the invariant
    /// [`EncryptedBoxBuilder::wf`] means no password was ever supplied;
    /// succeeds otherwise, even with zero fields added. The builder itself
    /// is left unchanged.
    pub fn build(&self) -> (r: Result<EncryptedBox, BuildError>)
        ensures
            self@.key.len() == 0 ==> (r matches Err(e) && e@
                == "cannot build an encrypted box with no key"@),
            self@.key.len() != 0 ==> (r matches Ok(b) && b@.fields == self@.fields && b@.key
                == self@.key && b@.variant == self@.variant),
    {
        if self.key.len() == 0 {
            return Err(BuildError::new("cannot build an encrypted box with no key"));
        }
        Ok(EncryptedBox::new(self.fields.clone(), self.key.clone(), self.cipher))
    }

    /// Append the field's UTF-8 bytes to the accumulated field buffer,
    /// unconditionally, in call order. Nothing else changes.
    pub fn add_field(&mut self, field: &str)
        ensures
            final(self)@.fields == old(self)@.fields + encode_utf8(field@),
            final(self)@.key == old(self)@.key,
            final(self)@.password == old(self)@.password,
            final(self)@.variant == old(self)@.variant,
            old(self).wf() ==> final(self).wf(),
    {
        self.fields.extend_from_slice(field.as_bytes());
    }

    /// Append each field of the sequence in order; equivalent to repeated
    /// single [`EncryptedBoxBuilder::add_field`] calls.
    pub fn add_fields(&mut self, fields: &[String])
        ensures
            final(self)@.fields == old(self)@.fields + concat_fields(fields.deep_view()),
            final(self)@.key == old(self)@.key,
            final(self)@.password == old(self)@.password,
            final(self)@.variant == old(self)@.variant,
            old(self).wf() ==> final(self).wf(),
    {
        let ghost all = fields.deep_view();
        let mut i: usize = 0;
        while i < fields.len()
            invariant
                i <= fields.len(),
                all == fields.deep_view(),
                self@.fields == old(self)@.fields + concat_fields(all.take(i as int)),
                self@.key == old(self)@.key,
                self@.password == old(self)@.password,
                self@.variant == old(self)@.variant,
            decreases fields.len() - i,
        {
            proof {
                assert(all.take(i + 1).drop_last() =~= all.take(i as int));
                assert(all.take(i + 1).last() == all[i as int]);
            }
            self.add_field(fields[i].as_str());
            i = i + 1;
        }
        proof {
            assert(all.take(fields.deep_view().len() as int) =~= all);
        }
    }

    /// Store the password and immediately re-derive the key from it at the
    /// active cipher's key length. Always succeeds; the fields and the
    /// cipher stay as they are.
    pub fn set_password(&mut self, password: String)
        ensures
            final(self)@.password == Some(password@),
            final(self)@.key == spec_derive_key(
                password@,
                spec_key_length(old(self)@.variant) as int,
            ),
            final(self)@.key.len() == spec_key_length(old(self)@.variant),
            final(self)@.fields == old(self)@.fields,
            final(self)@.variant == old(self)@.variant,
            final(self).wf(),
    {
        self.set_key(&password);
        self.password = Some(password);
    }

    /// Re-derive the key from the given password at the active cipher's key
    /// length.
    fn set_key(&mut self, password: &String)
        ensures
            final(self)@.key == spec_derive_key(
                password@,
                spec_key_length(old(self)@.variant) as int,
            ),
            final(self)@.key.len() == spec_key_length(old(self)@.variant),
            final(self)@.fields == old(self)@.fields,
            final(self)@.password == old(self)@.password,
            final(self)@.variant == old(self)@.variant,
    {
        proof {
            lemma_key_length_bounds(self@.variant);
        }
        self.key = kdf::derive_key_from_password(password, self.cipher.get_key_length());
    }

    /// Replace the active cipher, then re-establish the key/cipher pairing:
    /// if a password was previously set, the key is re-derived at the new
    /// cipher's key length; if none ever was, the key remains absent. Handy
    /// for encrypting one builder's fields under many ciphers.
    pub fn set_cipher(&mut self, cipher: &OpensslAesWrapper)
        ensures
            final(self)@.variant == cipher@,
            final(self)@.fields == old(self)@.fields,
            final(self)@.password == old(self)@.password,
            old(self)@.password matches Some(p) ==> final(self)@.key == spec_derive_key(
                p,
                spec_key_length(cipher@) as int,
            ) && final(self)@.key.len() == spec_key_length(cipher@),
            old(self)@.password is None ==> final(self)@.key == Seq::<u8>::empty(),
            final(self).wf(),
    {
        self.cipher = *cipher;
        match &self.password {
            Some(p) => {
                let p = p.clone();
                self.set_key(&p);
            },
            None => {
                self.key = Vec::new();
            },
        }
    }

    /// The accumulated field bytes.
    pub fn fields(&self) -> (f: &Vec<u8>)
        ensures
            f@ == self@.fields,
    {
        &self.fields
    }

    /// The derived key, empty while no password was ever set.
    pub fn key(&self) -> (k: &Vec<u8>)
        ensures
            k@ == self@.key,
    {
        &self.key
    }
}

/// Build precondition: under the invariant [`EncryptedBoxBuilder::wf`], the
/// key is absent exactly while no password was ever set — so `build` fails
/// precisely on a builder that never received one, and succeeds (even with
/// zero fields) after any `set_password`.
pub proof fn lemma_build_precondition(b: EncryptedBoxBuilder)
    requires
        b.wf(),
    ensures
        b@.key.len() == 0 <==> b@.password is None,
{
    match b@.password {
        Some(_) => {
            lemma_key_length_bounds(b@.variant);
        },
        None => {},
    }
}

} // verus!
