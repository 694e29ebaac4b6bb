//! The leaf hash of a signed certificate timestamp, from which a Merkle
//! inclusion proof starts.

use vstd::prelude::*;

verus! {

/// The SHA-256 digest of a byte string.
pub uninterp spec fn sha256(data: Seq<u8>) -> Seq<u8>;

/// Length of a SHA-256 digest, in bytes.
pub const DIGEST_LEN: usize = 32;

/// Longest input that can be hashed, in bytes: its length in bits has to
/// fit in 64 bits.
pub const MAX_INPUT_LEN: u64 = 0x1fff_ffff_ffff_ffff;

/// `ring::digest::digest` with `ring::digest::SHA256`. Not proved: that the
/// digest depends on the data alone, which is what naming it `sha256` says,
/// and that it is 32 bytes long. The call panics on an input whose length in
/// bits does not fit in 64 bits; `requires` leaves such inputs out.
#[verifier::external_body]
fn sha256_digest(data: &[u8]) -> (digest: Vec<u8>)
    requires
        data@.len() <= MAX_INPUT_LEN,
    ensures
        digest@ == sha256(data@),
        digest@.len() == DIGEST_LEN,
{
    ring::digest::digest(&ring::digest::SHA256, data).as_ref().to_vec()
}

/// The leaf hash of a signed certificate timestamp: the SHA-256 digest of
/// its bytes.
pub fn leaf_hash(sct: &[u8]) -> (hash: Vec<u8>)
    requires
        sct@.len() <= MAX_INPUT_LEN,
    ensures
        hash@ == sha256(sct@),
        hash@.len() == DIGEST_LEN,
{
    sha256_digest(sct)
}

} // verus!
