//! Relocation tickets and their join payloads.

use vstd::prelude::*;

use crate::id::PublicId;
use crate::xor_name::XorName;

verus! {

/// A signed relocation ticket: where the relocating node must rejoin, and
/// which destination key its signers knew. Its signature is checked by the
/// section that issued it before it ever reaches the joining node.
#[verifier::ext_equal]
#[derive(Debug)]
pub struct SignedRelocateDetails {
    /// The destination name whose section the node must rejoin.
    pub destination: XorName,
    /// The destination section's key known to the ticket's signers.
    pub destination_key: Vec<u8>,
}

impl SignedRelocateDetails {
    /// The destination name whose section the node must rejoin.
    pub fn destination(&self) -> (r: &XorName)
        ensures
            r == self.destination,
    {
        &self.destination
    }
}

/// What a relocating node hands the destination section when joining: its
/// ticket, and the identity it held before regenerating.
#[verifier::ext_equal]
#[derive(Debug)]
pub struct RelocatePayload {
    /// The ticket that sent the node here.
    pub details: SignedRelocateDetails,
    /// The identity the node held when the ticket was issued.
    pub old_public_id: PublicId,
}

impl RelocatePayload {
    /// Binds a ticket to the identity it was issued to.
    pub fn new(details: SignedRelocateDetails, old_public_id: PublicId) -> (r: RelocatePayload)
        ensures
            r.details == details,
            r.old_public_id == old_public_id,
    {
        RelocatePayload { details, old_public_id }
    }
}

} // verus!
