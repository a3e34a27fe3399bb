//! Randomness at the library's edge.

use vstd::prelude::*;

verus! {

/// Relies on `rand::random`: draws 32 bytes from the thread-local random
/// number generator. Nothing is promised of the value drawn; every caller
/// must work for every outcome.
#[verifier::external_body]
pub(crate) fn random_name_bytes() -> [u8; 32] {
    rand::random::<[u8; 32]>()
}

} // verus!
