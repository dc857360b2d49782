//! Content hashing, and the cipher and differ adapters.

use vstd::prelude::*;
use sha2::Digest;
use crate::encoding::{hex_encode, hex_text};

pub mod diff;
pub mod encryption;

verus! {

/// The SHA-256 digest of a byte string.
pub uninterp spec fn sha256(data: Seq<u8>) -> Seq<u8>;

/// The number of bytes in a SHA-256 digest.
pub const DIGEST_LEN: usize = 32;

/// `Sha256::digest` of the `sha2` crate: trusted to be a function of the
/// input alone and to return 32 bytes.
#[verifier::external_body]
pub(crate) fn sha256_digest(data: &[u8]) -> (digest: Vec<u8>)
    ensures
        digest@ == sha256(data@),
        digest@.len() == DIGEST_LEN,
{
    sha2::Sha256::digest(data).to_vec()
}

/// The content hash that accompanies an artifact: the SHA-256 digest of its
/// bytes as 64 lowercase hexadecimal characters.
pub open spec fn content_hash(contents: Seq<u8>) -> Seq<char> {
    hex_text(sha256(contents))
}

/// Computes the content hash of an artifact's bytes.
pub fn sha256_file(contents: &[u8]) -> (hash: String)
    ensures
        hash@ == content_hash(contents@),
        hash@.len() == 2 * DIGEST_LEN,
{
    let digest = sha256_digest(contents);
    hex_encode(digest.as_slice())
}

} // verus!
