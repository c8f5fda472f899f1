//! SHA-256, computed by `ring`.

use vstd::prelude::*;

verus! {

/// The SHA-256 digest of `data`.
pub uninterp spec fn sha256(data: Seq<u8>) -> Seq<u8>;

/// The number of bytes of a SHA-256 digest.
pub const SHA256_LEN: usize = 32;

/// SHA-256 is defined for messages whose length in bits fits in 64 bits.
pub open spec fn hashable(len: nat) -> bool {
    len * 8 <= u64::MAX
}

/// Whether a message of `len` bytes can be hashed.
pub fn is_hashable(len: usize) -> (fits: bool)
    ensures
        fits == hashable(len as nat),
{
    len as u64 <= u64::MAX / 8
}

/// `ring::digest::digest` with `ring::digest::SHA256`: the SHA-256 digest of
/// `data`, which has 32 bytes. The outside function panics on a message whose
/// length in bits does not fit in 64 bits.
#[verifier::external_body]
pub(crate) fn sha256_digest(data: &[u8]) -> (digest: Vec<u8>)
    requires
        hashable(data@.len()),
    ensures
        digest@ == sha256(data@),
        digest@.len() == SHA256_LEN,
{
    ring::digest::digest(&ring::digest::SHA256, data).as_ref().to_vec()
}

} // verus!
