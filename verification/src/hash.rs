//! Fixed-width content hashes: the identifier type used as the cache key, and
//! the digest that produces it.

use vstd::prelude::*;
use crate::codec::{bytes_eq, copy_bytes};
use sha2::Digest;

verus! {

/// The SHA-256 digest of a byte string. The digest is a function of the input
/// bytes alone; `sha256` below computes it.
pub uninterp spec fn sha256_of(data: Seq<u8>) -> Seq<u8>;

/// Relies on `sha2::Sha256::digest`: the 32-byte SHA-256 digest of the input,
/// determined by the input bytes alone.
#[verifier::external_body]
pub fn sha256(data: &[u8]) -> (r: Vec<u8>)
    ensures
        r@ == sha256_of(data@),
        r@.len() == 32,
{
    sha2::Sha256::digest(data).to_vec()
}

/// A 32-byte identifier: the hash of a contract's code, or a fingerprint used
/// as the persistent cache key.
pub struct CryptoHash {
    bytes: Vec<u8>,
}

impl View for CryptoHash {
    type V = Seq<u8>;

    closed spec fn view(&self) -> Seq<u8> {
        self.bytes@
    }
}

impl CryptoHash {
    /// A well-formed hash holds exactly 32 bytes.
    pub open spec fn wf(&self) -> bool {
        self@.len() == 32
    }

    /// The hash whose bytes are the SHA-256 digest of `data`.
    pub fn digest(data: &[u8]) -> (r: CryptoHash)
        ensures
            r@ == sha256_of(data@),
            r.wf(),
    {
        CryptoHash { bytes: sha256(data) }
    }

    /// Wraps 32 raw bytes as a hash.
    pub fn from_bytes(bytes: Vec<u8>) -> (r: CryptoHash)
        requires
            bytes@.len() == 32,
        ensures
            r@ == bytes@,
            r.wf(),
    {
        CryptoHash { bytes }
    }

    /// The raw bytes, used as the persistent cache key.
    pub fn as_bytes(&self) -> (r: &[u8])
        ensures
            r@ == self@,
    {
        self.bytes.as_slice()
    }

    /// A fresh hash with the same bytes.
    pub fn duplicate(&self) -> (r: CryptoHash)
        ensures
            r@ == self@,
    {
        CryptoHash { bytes: copy_bytes(self.bytes.as_slice()) }
    }

    /// Byte-for-byte equality.
    pub fn equals(&self, other: &CryptoHash) -> (r: bool)
        ensures
            r == (self@ == other@),
    {
        bytes_eq(self.bytes.as_slice(), other.bytes.as_slice())
    }
}

} // verus!
