//! The typed failures of the library.

use vstd::prelude::*;

verus! {

/// Failure reported at the boundary of a mutating operation or of a
/// verification step. Protocol violations and staleness are reported to the
/// caller; none of them is fatal to the node.
#[derive(Clone, Copy, Debug, PartialEq, Eq, Structural)]
pub enum RoutingError {
    /// A vote came from a node outside the current elder set.
    ForeignVote,
    /// An elder-set snapshot was malformed: empty, or with repeated names.
    InvalidElderSet,
    /// A chain extension or elder-set change did not increase the version by
    /// exactly one.
    InvalidElderVersion,
    /// A signature did not validate against the expected key.
    FailedSignature,
    /// A received message could not be verified against the trusted anchor.
    UntrustedMessage,
    /// A received message was malformed.
    InvalidMessage,
}

} // verus!
