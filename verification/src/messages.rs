//! The protocol messages the node classifies and verifies.

use vstd::prelude::*;

use crate::elders_info::EldersInfo;
use crate::error::RoutingError;
use crate::shared_state::SectionKeyInfo;
use crate::shared_state::SectionProofSlice;
use crate::shared_state::TrustStatus;
use crate::xor_name::XorName;

verus! {

/// An elder set's answer to a bootstrap request.
#[derive(Debug)]
pub enum BootstrapResponse {
    /// Join this section: its current elder set, the key it signs under,
    /// and the proof chain attesting that key from the joiner's anchor.
    Join {
        /// The section's current elder set.
        elders_info: EldersInfo,
        /// The key the section currently signs under.
        section_key: SectionKeyInfo,
        /// The chain attesting `section_key`.
        proof: SectionProofSlice,
    },
    /// This section is not responsible for the requested name; bootstrap
    /// again with these peers.
    Rebootstrap(Vec<u64>),
}

/// The kinds of message a node can receive.
#[derive(Debug)]
pub enum Variant {
    /// An answer to a bootstrap request.
    BootstrapResponse(BootstrapResponse),
    /// A neighbouring section's elder update.
    NeighbourInfo,
    /// An application-level message.
    UserMessage,
    /// A message bounced for failing trust checks at its receiver.
    BouncedUntrustedMessage,
    /// A key-generation protocol message.
    DkgMessage,
    /// A key-generation message addressed to a previous elder set.
    DkgOldElders,
    /// Approval of a join request.
    NodeApproval,
    /// An elder update for members catching up.
    EldersUpdate,
    /// A promotion notice.
    Promote,
    /// A notice that the sender believes the receiver lags behind.
    NotifyLagging,
    /// A relocation ticket.
    Relocate,
    /// A share of a message signature.
    MessageSignature,
    /// A request to join the section responsible for a name.
    BootstrapRequest(XorName),
    /// A request to join after bootstrap.
    JoinRequest,
    /// A gossip request of the agreement engine.
    ParsecRequest,
    /// A gossip response of the agreement engine.
    ParsecResponse,
    /// A keep-alive.
    Ping,
    /// A message bounced for being unintelligible at its receiver.
    BouncedUnknownMessage,
    /// A vote relayed outside gossip.
    Vote,
}

/// One received message.
#[derive(Debug)]
pub struct Message {
    /// What kind of message it is, with its payload.
    pub variant: Variant,
}

/// Whether a message proves itself against the receiver's trusted anchor: a
/// join response must carry a proof chain attesting its section key from
/// the anchor, and a key older than the anchor is never trusted; every
/// other kind carries nothing to verify at this stage.
pub open spec fn spec_message_trusted(msg: Message, anchor: SectionKeyInfo) -> bool {
    match msg.variant {
        Variant::BootstrapResponse(r) => match r {
            BootstrapResponse::Join { elders_info: _, section_key, proof } => {
                &&& section_key.version >= anchor.version
                &&& proof.spec_trust(anchor, section_key)
            },
            BootstrapResponse::Rebootstrap(_) => true,
        },
        _ => true,
    }
}

/// Verifies a message against the receiver's trusted anchor, walking the
/// attached proof chain where the message carries one.
pub fn verify_message(msg: &Message, anchor: &SectionKeyInfo) -> (r: Result<(), RoutingError>)
    ensures
        r is Ok <==> spec_message_trusted(*msg, *anchor),
        r matches Err(e) ==> e == RoutingError::UntrustedMessage,
{
    match &msg.variant {
        Variant::BootstrapResponse(resp) => match resp {
            BootstrapResponse::Join { elders_info: _, section_key, proof } => {
                match proof.verify(section_key, anchor) {
                    TrustStatus::Trusted => Ok(()),
                    TrustStatus::ProofTooOld => Err(RoutingError::UntrustedMessage),
                    TrustStatus::ProofInvalid => Err(RoutingError::UntrustedMessage),
                }
            },
            BootstrapResponse::Rebootstrap(_) => Ok(()),
        },
        _ => Ok(()),
    }
}

} // verus!
