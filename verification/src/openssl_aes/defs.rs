//! The closed set of supported AES variants, the fixed order in which they
//! are enumerated, and the resolved facts about each variant: key length,
//! IV length, and the numeric identifier (NID) under which OpenSSL registers
//! the cipher.

use vstd::prelude::*;
use crate::openssl_aes::errors::Error;

verus! {

/// The supported AES variants: an algorithm family, a mode, and a key size.
/// The set is closed and enumerable in this fixed, stable order, which
/// index-based selection relies on.
#[derive(Clone, Copy, Debug, PartialEq, Eq, Structural)]
pub enum OpenSslVariants {
    Aes128Ecb,
    Aes128Cbc,
    Aes128Xts,
    Aes128Ctr,
    Aes128Cfb1,
    Aes128Cfb128,
    Aes128Cfb8,
    Aes128Ofb,
    Aes192Ecb,
    Aes192Cbc,
    Aes192Ctr,
    Aes192Cfb1,
    Aes192Cfb128,
    Aes192Cfb8,
    Aes192Ofb,
    Aes256Ecb,
    Aes256Cbc,
    Aes256Xts,
    Aes256Ctr,
    Aes256Cfb1,
    Aes256Cfb128,
    Aes256Cfb8,
    Aes256Ofb,
}

/// The declared enumeration order of the variants.
pub open spec fn variant_order() -> Seq<OpenSslVariants> {
    seq![
        OpenSslVariants::Aes128Ecb,
        OpenSslVariants::Aes128Cbc,
        OpenSslVariants::Aes128Xts,
        OpenSslVariants::Aes128Ctr,
        OpenSslVariants::Aes128Cfb1,
        OpenSslVariants::Aes128Cfb128,
        OpenSslVariants::Aes128Cfb8,
        OpenSslVariants::Aes128Ofb,
        OpenSslVariants::Aes192Ecb,
        OpenSslVariants::Aes192Cbc,
        OpenSslVariants::Aes192Ctr,
        OpenSslVariants::Aes192Cfb1,
        OpenSslVariants::Aes192Cfb128,
        OpenSslVariants::Aes192Cfb8,
        OpenSslVariants::Aes192Ofb,
        OpenSslVariants::Aes256Ecb,
        OpenSslVariants::Aes256Cbc,
        OpenSslVariants::Aes256Xts,
        OpenSslVariants::Aes256Ctr,
        OpenSslVariants::Aes256Cfb1,
        OpenSslVariants::Aes256Cfb128,
        OpenSslVariants::Aes256Cfb8,
        OpenSslVariants::Aes256Ofb,
    ]
}

/// The key length, in bytes, that the cipher for `v` demands.
/// XTS modes take a double-length key.
pub open spec fn spec_key_length(v: OpenSslVariants) -> usize {
    match v {
        OpenSslVariants::Aes128Ecb => 16,
        OpenSslVariants::Aes128Cbc => 16,
        OpenSslVariants::Aes128Xts => 32,
        OpenSslVariants::Aes128Ctr => 16,
        OpenSslVariants::Aes128Cfb1 => 16,
        OpenSslVariants::Aes128Cfb128 => 16,
        OpenSslVariants::Aes128Cfb8 => 16,
        OpenSslVariants::Aes128Ofb => 16,
        OpenSslVariants::Aes192Ecb => 24,
        OpenSslVariants::Aes192Cbc => 24,
        OpenSslVariants::Aes192Ctr => 24,
        OpenSslVariants::Aes192Cfb1 => 24,
        OpenSslVariants::Aes192Cfb128 => 24,
        OpenSslVariants::Aes192Cfb8 => 24,
        OpenSslVariants::Aes192Ofb => 24,
        OpenSslVariants::Aes256Ecb => 32,
        OpenSslVariants::Aes256Cbc => 32,
        OpenSslVariants::Aes256Xts => 64,
        OpenSslVariants::Aes256Ctr => 32,
        OpenSslVariants::Aes256Cfb1 => 32,
        OpenSslVariants::Aes256Cfb128 => 32,
        OpenSslVariants::Aes256Cfb8 => 32,
        OpenSslVariants::Aes256Ofb => 32,
    }
}

/// The IV length, in bytes, that the cipher for `v` demands, or `None`
/// for a mode (ECB) that takes no IV.
pub open spec fn spec_iv_length(v: OpenSslVariants) -> Option<usize> {
    match v {
        OpenSslVariants::Aes128Ecb => None,
        OpenSslVariants::Aes192Ecb => None,
        OpenSslVariants::Aes256Ecb => None,
        _ => Some(16),
    }
}

/// The numeric identifier (NID) under which OpenSSL registers the cipher
/// for `v`; the values are OpenSSL's published object identifiers
/// (`NID_aes_128_ecb` and so on).
pub open spec fn spec_nid(v: OpenSslVariants) -> i32 {
    match v {
        OpenSslVariants::Aes128Ecb => 418,
        OpenSslVariants::Aes128Cbc => 419,
        OpenSslVariants::Aes128Ofb => 420,
        OpenSslVariants::Aes128Cfb128 => 421,
        OpenSslVariants::Aes192Ecb => 422,
        OpenSslVariants::Aes192Cbc => 423,
        OpenSslVariants::Aes192Ofb => 424,
        OpenSslVariants::Aes192Cfb128 => 425,
        OpenSslVariants::Aes256Ecb => 426,
        OpenSslVariants::Aes256Cbc => 427,
        OpenSslVariants::Aes256Ofb => 428,
        OpenSslVariants::Aes256Cfb128 => 429,
        OpenSslVariants::Aes128Cfb1 => 650,
        OpenSslVariants::Aes192Cfb1 => 651,
        OpenSslVariants::Aes256Cfb1 => 652,
        OpenSslVariants::Aes128Cfb8 => 653,
        OpenSslVariants::Aes192Cfb8 => 654,
        OpenSslVariants::Aes256Cfb8 => 655,
        OpenSslVariants::Aes128Ctr => 904,
        OpenSslVariants::Aes192Ctr => 905,
        OpenSslVariants::Aes256Ctr => 906,
        OpenSslVariants::Aes128Xts => 913,
        OpenSslVariants::Aes256Xts => 914,
    }
}

/// Every variant's key length lies between 16 and 64 bytes.
pub proof fn lemma_key_length_bounds(v: OpenSslVariants)
    ensures
        16 <= spec_key_length(v) <= 64,
{
}

impl OpenSslVariants {
    /// All supported variants, in the declared enumeration order.
    pub fn iterator() -> (r: Vec<OpenSslVariants>)
        ensures
            r@ == variant_order(),
    {
        let r: Vec<OpenSslVariants> = vec![
            OpenSslVariants::Aes128Ecb,
            OpenSslVariants::Aes128Cbc,
            OpenSslVariants::Aes128Xts,
            OpenSslVariants::Aes128Ctr,
            OpenSslVariants::Aes128Cfb1,
            OpenSslVariants::Aes128Cfb128,
            OpenSslVariants::Aes128Cfb8,
            OpenSslVariants::Aes128Ofb,
            OpenSslVariants::Aes192Ecb,
            OpenSslVariants::Aes192Cbc,
            OpenSslVariants::Aes192Ctr,
            OpenSslVariants::Aes192Cfb1,
            OpenSslVariants::Aes192Cfb128,
            OpenSslVariants::Aes192Cfb8,
            OpenSslVariants::Aes192Ofb,
            OpenSslVariants::Aes256Ecb,
            OpenSslVariants::Aes256Cbc,
            OpenSslVariants::Aes256Xts,
            OpenSslVariants::Aes256Ctr,
            OpenSslVariants::Aes256Cfb1,
            OpenSslVariants::Aes256Cfb128,
            OpenSslVariants::Aes256Cfb8,
            OpenSslVariants::Aes256Ofb,
        ];
        proof {
            assert(r@ =~= variant_order());
        }
        r
    }
}

/// The key length, in bytes, that the cipher for `v` demands.
pub fn key_length_of(v: &OpenSslVariants) -> (n: usize)
    ensures
        n == spec_key_length(*v),
{
    match v {
        OpenSslVariants::Aes128Xts => 32,
        OpenSslVariants::Aes256Xts => 64,
        OpenSslVariants::Aes128Ecb
        | OpenSslVariants::Aes128Cbc
        | OpenSslVariants::Aes128Ctr
        | OpenSslVariants::Aes128Cfb1
        | OpenSslVariants::Aes128Cfb128
        | OpenSslVariants::Aes128Cfb8
        | OpenSslVariants::Aes128Ofb => 16,
        OpenSslVariants::Aes192Ecb
        | OpenSslVariants::Aes192Cbc
        | OpenSslVariants::Aes192Ctr
        | OpenSslVariants::Aes192Cfb1
        | OpenSslVariants::Aes192Cfb128
        | OpenSslVariants::Aes192Cfb8
        | OpenSslVariants::Aes192Ofb => 24,
        OpenSslVariants::Aes256Ecb
        | OpenSslVariants::Aes256Cbc
        | OpenSslVariants::Aes256Ctr
        | OpenSslVariants::Aes256Cfb1
        | OpenSslVariants::Aes256Cfb128
        | OpenSslVariants::Aes256Cfb8
        | OpenSslVariants::Aes256Ofb => 32,
    }
}

/// The IV length, in bytes, that the cipher for `v` demands, or `None` for
/// a mode that takes no IV.
pub fn iv_length_of(v: &OpenSslVariants) -> (r: Option<usize>)
    ensures
        r == spec_iv_length(*v),
{
    match v {
        OpenSslVariants::Aes128Ecb | OpenSslVariants::Aes192Ecb | OpenSslVariants::Aes256Ecb => {
            None
        },
        _ => Some(16),
    }
}

/// The numeric identifier (NID) under which OpenSSL registers the cipher
/// for `v`.
pub(crate) fn nid_of(v: &OpenSslVariants) -> (n: i32)
    ensures
        n == spec_nid(*v),
{
    match v {
        OpenSslVariants::Aes128Ecb => 418,
        OpenSslVariants::Aes128Cbc => 419,
        OpenSslVariants::Aes128Ofb => 420,
        OpenSslVariants::Aes128Cfb128 => 421,
        OpenSslVariants::Aes192Ecb => 422,
        OpenSslVariants::Aes192Cbc => 423,
        OpenSslVariants::Aes192Ofb => 424,
        OpenSslVariants::Aes192Cfb128 => 425,
        OpenSslVariants::Aes256Ecb => 426,
        OpenSslVariants::Aes256Cbc => 427,
        OpenSslVariants::Aes256Ofb => 428,
        OpenSslVariants::Aes256Cfb128 => 429,
        OpenSslVariants::Aes128Cfb1 => 650,
        OpenSslVariants::Aes192Cfb1 => 651,
        OpenSslVariants::Aes256Cfb1 => 652,
        OpenSslVariants::Aes128Cfb8 => 653,
        OpenSslVariants::Aes192Cfb8 => 654,
        OpenSslVariants::Aes256Cfb8 => 655,
        OpenSslVariants::Aes128Ctr => 904,
        OpenSslVariants::Aes192Ctr => 905,
        OpenSslVariants::Aes256Ctr => 906,
        OpenSslVariants::Aes128Xts => 913,
        OpenSslVariants::Aes256Xts => 914,
    }
}

/// Map a numeric scheme index to the variant at that position of the
/// declared enumeration order. Every index outside the range fails with
/// `UnsupportedScheme`, and with nothing else.
pub fn openssl_index_to_enum(i: u32) -> (r: Result<OpenSslVariants, Error>)
    ensures
        i < variant_order().len() ==> (r matches Ok(v) && v == variant_order()[i as int]),
        i >= variant_order().len() ==> (r matches Err(e) && e@ == (
        crate::openssl_aes::errors::ErrorKind::UnsupportedScheme { index: i })),
{
    let all = OpenSslVariants::iterator();
    if (i as usize) < all.len() {
        Ok(all[i as usize])
    } else {
        Err(Error::unsupported(i))
    }
}

} // verus!
