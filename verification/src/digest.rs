//! SHA-256 as provided by the `sha2` crate.

use sha2::Digest;
use vstd::prelude::*;

verus! {

/// The SHA-256 digest of a byte sequence, as computed by the `sha2` crate.
pub uninterp spec fn sha256(data: Seq<u8>) -> Seq<u8>;

/// The 32-byte SHA-256 digest of `data`.
///
/// SHA-256 always yields 32 bytes, so this is `sha256(data)` on every input
/// the trusted wrapper below is called on; the second branch only gives the
/// spec a total 32-byte value.
pub open spec fn digest32(data: Seq<u8>) -> Seq<u8> {
    if sha256(data).len() == 32 {
        sha256(data)
    } else {
        Seq::new(32, |_i: int| 0u8)
    }
}

/// Calls `sha2::Sha256::digest` on `data`.
///
/// Trusted: the result is the SHA-256 digest of exactly `data` (named by
/// `sha256`), and it is 32 bytes long, as the SHA-256 output size is fixed.
#[verifier::external_body]
pub(crate) fn sha256_digest(data: &[u8]) -> (digest: Vec<u8>)
    ensures
        digest@ == sha256(data@),
        digest@.len() == 32,
{
    sha2::Sha256::digest(data).to_vec()
}

} // verus!
