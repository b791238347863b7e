//! The digest that turns a cache key into the name of its slot.

use sha3::Digest;
use vstd::prelude::*;

verus! {

/// The SHA3-512 digest of `data`, as the sha3 crate computes it.
pub uninterp spec fn sha3_512(data: Seq<u8>) -> Seq<u8>;

/// `Digest::digest` of the sha3 crate on its hasher `Sha3_512`: the digest of
/// `data`, which that hasher hands out as an array of sixty-four bytes.
#[verifier::external_body]
pub(crate) fn sha3_512_digest(data: &[u8]) -> (digest: [u8; 64])
    ensures
        digest@ == sha3_512(data@),
{
    sha3::Sha3_512::digest(data).into()
}

} // verus!
