//! The two hash functions of the derivation, which `sha2` and `ethers_core`
//! compute, and the address that the second one gives.

use sha2::Digest;
use vstd::prelude::*;

verus! {

/// The SHA-256 digest of `message`.
pub uninterp spec fn sha256_digest(message: Seq<u8>) -> Seq<u8>;

/// The Keccak-256 digest of `message`.
pub uninterp spec fn keccak256_digest(message: Seq<u8>) -> Seq<u8>;

/// A 20-byte account address.
#[derive(Clone, Copy, Debug, PartialEq, Eq)]
pub struct Address {
    pub bytes: [u8; 20],
}

impl View for Address {
    type V = Seq<u8>;

    open spec fn view(&self) -> Seq<u8> {
        self.bytes@
    }
}

/// `Sha256::digest` of `sha2`. The digest is named, not computed here; the
/// contract adds its length, which the type of the outside result fixes.
#[verifier::external_body]
pub(crate) fn sha256(bytes: &[u8]) -> (digest: Vec<u8>)
    ensures
        digest@ == sha256_digest(bytes@),
        digest@.len() == 32,
{
    sha2::Sha256::digest(bytes).to_vec()
}

/// `raw_public_key_to_address` of `ethers_core::utils`. Its source hashes the
/// input with `keccak256`, whose result is 32 bytes long, and keeps the bytes
/// from index 12 on; it panics on an input that is not 64 bytes long.
#[verifier::external_body]
pub(crate) fn raw_public_key_to_address(body: &[u8]) -> (address: [u8; 20])
    requires
        body@.len() == 64,
    ensures
        address@ == keccak256_digest(body@).subrange(12, 32),
{
    ethers_core::utils::raw_public_key_to_address(body).0
}

} // verus!
