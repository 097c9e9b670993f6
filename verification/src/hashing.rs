//! SHA-256, as computed by the `sha2` crate.
use vstd::prelude::*;
use sha2::Digest;

verus! {

/// The SHA-256 digest of a byte string.  What the digest of a given string
/// is, nothing here says: it is what `sha2::Sha256` computes.
pub uninterp spec fn sha256_digest(data: Seq<u8>) -> Seq<u8>;

/// `sha2::Sha256::digest` on `data`.  Trusted: the result is the digest of
/// `data` (the same bytes give the same digest) and is 32 bytes long, as the
/// output type `GenericArray<u8, U32>` fixes.
#[verifier::external_body]
pub(crate) fn sha256(data: &[u8]) -> (d: Vec<u8>)
    ensures
        d@ == sha256_digest(data@),
        d@.len() == 32,
{
    sha2::Sha256::digest(data).to_vec()
}

} // verus!
