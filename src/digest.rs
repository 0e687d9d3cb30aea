use sha2::digest::{DynDigest, Update};
use sha2::Sha256;
use vstd::prelude::*;

verus! {

/// The length in bytes of a SHA-256 digest.
pub const DIGEST_LEN: usize = 32;

/// The SHA-256 digest of `data`.
pub uninterp spec fn sha256_of(data: Seq<u8>) -> Seq<u8>;

/// Relies on sha2's `Sha256`, fed through `Update` and finished through
/// `DynDigest`: the digest depends on the bytes alone and is 32 bytes long.
#[verifier::external_body]
pub(crate) fn sha256(data: &[u8]) -> (r: Vec<u8>)
    ensures
        r@ == sha256_of(data@),
        r@.len() == DIGEST_LEN,
{
    let mut hasher: Sha256 = Sha256::default();
    Update::update(&mut hasher, data);
    let hash: Box<[u8]> = Box::new(hasher).finalize();
    hash.into_vec()
}

} // verus!
