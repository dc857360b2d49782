//! Generating the operator's signing keypair.

use vstd::prelude::*;
use crate::error::ErrorKind;
use crate::signing::{generate_keypair, is_keypair_of, Keypair, SIGNING_KEY_LEN};

verus! {

/// Generates a signing keypair for the operator.
///
/// `key_exists` says whether a private key file is already there. If it
/// is, and `force` is not set, the command fails with `AlreadyExists` and
/// the existing key stays. Otherwise it succeeds with the two texts to
/// store: the base64 of a 32-byte private key, and the base64 of the
/// public key that belongs to it.
pub fn execute(force: bool, key_exists: bool) -> (pair: Result<Keypair, ErrorKind>)
    ensures
        key_exists && !force ==> pair == Err::<Keypair, ErrorKind>(ErrorKind::AlreadyExists),
        !(key_exists && !force) ==> pair is Ok,
        pair is Ok ==> exists|secret: Seq<u8>|
            secret.len() == SIGNING_KEY_LEN && #[trigger] is_keypair_of(pair->Ok_0, secret),
{
    generate_keypair(force, key_exists)
}

} // verus!
