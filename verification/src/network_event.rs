//! The facts elders can agree on, and their vote payloads.

use vstd::prelude::*;

use crate::elders_info::EldersInfo;
use crate::id::P2pNode;
use crate::id::PublicId;
use crate::shared_state::key_info_equiv;
use crate::shared_state::SectionKeyInfo;
use crate::xor_name::Prefix;
use crate::xor_name::XorName;

verus! {

/// The payload of an `Online` fact: the joining peer, its starting age and,
/// for a relocating peer, the elder version of its previous section it has
/// knowledge of.
#[verifier::ext_equal]
#[derive(Clone, Copy, Debug)]
pub struct OnlinePayload {
    /// The joining peer.
    pub p2p_node: P2pNode,
    /// The age the peer starts with.
    pub age: u8,
    /// The elder version the peer already knows, if it is relocating.
    pub their_knowledge: Option<u64>,
}

impl PartialEq for OnlinePayload {
    fn eq(&self, other: &Self) -> (r: bool) {
        let r = self.p2p_node == other.p2p_node && self.age == other.age && self.their_knowledge
            == other.their_knowledge;
        proof {
            if self.p2p_node == other.p2p_node && self.age == other.age && self.their_knowledge
                == other.their_knowledge {
                assert(*self =~= *other);
            }
        }
        r
    }
}

impl vstd::std_specs::cmp::PartialEqSpecImpl for OnlinePayload {
    open spec fn obeys_eq_spec() -> bool {
        true
    }

    open spec fn eq_spec(&self, other: &OnlinePayload) -> bool {
        self == other
    }
}

/// The payload of an `AckMessage` fact: which destination acknowledged
/// which version of the source section.
#[verifier::ext_equal]
#[derive(Clone, Copy, Debug)]
pub struct AckMessagePayload {
    /// The name the acknowledgment is for.
    pub dst_name: XorName,
    /// The prefix of the acknowledged section.
    pub src_prefix: Prefix,
    /// The acknowledged version.
    pub ack_version: u64,
}

impl PartialEq for AckMessagePayload {
    fn eq(&self, other: &Self) -> (r: bool) {
        let r = self.dst_name == other.dst_name && self.src_prefix == other.src_prefix
            && self.ack_version == other.ack_version;
        proof {
            if self.dst_name == other.dst_name && self.src_prefix == other.src_prefix
                && self.ack_version == other.ack_version {
                assert(*self =~= *other);
            }
        }
        r
    }
}

impl vstd::std_specs::cmp::PartialEqSpecImpl for AckMessagePayload {
    open spec fn obeys_eq_spec() -> bool {
        true
    }

    open spec fn eq_spec(&self, other: &AckMessagePayload) -> bool {
        self == other
    }
}

/// The payload of a `SendAckMessage` fact: which section and version to
/// acknowledge.
#[verifier::ext_equal]
#[derive(Clone, Copy, Debug)]
pub struct SendAckMessagePayload {
    /// The prefix of the section to acknowledge to.
    pub ack_prefix: Prefix,
    /// The version to acknowledge.
    pub ack_version: u64,
}

impl PartialEq for SendAckMessagePayload {
    fn eq(&self, other: &Self) -> (r: bool) {
        let r = self.ack_prefix == other.ack_prefix && self.ack_version == other.ack_version;
        proof {
            if self.ack_prefix == other.ack_prefix && self.ack_version == other.ack_version {
                assert(*self =~= *other);
            }
        }
        r
    }
}

impl vstd::std_specs::cmp::PartialEqSpecImpl for SendAckMessagePayload {
    open spec fn obeys_eq_spec() -> bool {
        true
    }

    open spec fn eq_spec(&self, other: &SendAckMessagePayload) -> bool {
        self == other
    }
}

/// The signature payload an elder attaches to a `SectionInfo` vote: its key
/// share and its signature share over the candidate key info's encoding.
#[verifier::ext_equal]
#[derive(Clone, Debug)]
pub struct EventSigPayload {
    /// The voter's public key share, as bytes.
    pub pub_key_share: Vec<u8>,
    /// The voter's signature share over the candidate key info, as bytes.
    pub sig_share: Vec<u8>,
}

/// A fact the elders of a section can agree on.
#[verifier::ext_equal]
#[derive(Debug)]
pub enum AccumulatingEvent {
    /// A peer joined (or rejoined) the section.
    Online(OnlinePayload),
    /// A member left the section.
    Offline(PublicId),
    /// Distributed key generation among the given participants should
    /// start.
    StartDkg(Vec<PublicId>),
    /// The section transitions to a new elder set attested under a new key.
    SectionInfo(EldersInfo, SectionKeyInfo),
    /// A section acknowledged knowledge of another's version.
    AckMessage(AckMessagePayload),
    /// An acknowledgment should be sent.
    SendAckMessage(SendAckMessagePayload),
}

/// Whether two facts are the same fact: equal up to the contents of their
/// payloads. This equivalence is the vote-deduplication key.
pub open spec fn event_equiv(a: AccumulatingEvent, b: AccumulatingEvent) -> bool {
    match (a, b) {
        (AccumulatingEvent::Online(x), AccumulatingEvent::Online(y)) => x == y,
        (AccumulatingEvent::Offline(x), AccumulatingEvent::Offline(y)) => x == y,
        (AccumulatingEvent::StartDkg(x), AccumulatingEvent::StartDkg(y)) => x@ == y@,
        (AccumulatingEvent::SectionInfo(xi, xk), AccumulatingEvent::SectionInfo(yi, yk)) => {
            xi.equiv(yi) && key_info_equiv(xk, yk)
        },
        (AccumulatingEvent::AckMessage(x), AccumulatingEvent::AckMessage(y)) => x == y,
        (AccumulatingEvent::SendAckMessage(x), AccumulatingEvent::SendAckMessage(y)) => x == y,
        _ => false,
    }
}

/// Whether a fact changes the section's structure. Structural facts are
/// applied before member-state facts when both are ready.
pub open spec fn spec_is_structural(e: AccumulatingEvent) -> bool {
    match e {
        AccumulatingEvent::StartDkg(_) => true,
        AccumulatingEvent::SectionInfo(_, _) => true,
        _ => false,
    }
}

/// Compares two member lists element-wise.
fn same_nodes(a: &Vec<PublicId>, b: &Vec<PublicId>) -> (r: bool)
    ensures
        r == (a@ == b@),
{
    if a.len() != b.len() {
        return false;
    }
    let n = a.len();
    let mut i: usize = 0;
    while i < n
        invariant
            n == a@.len(),
            n == b@.len(),
            i <= n,
            forall|j: int| 0 <= j < i ==> a@[j] == b@[j],
        decreases n - i,
    {
        if !(a[i] == b[i]) {
            return false;
        }
        i += 1;
    }
    proof {
        assert(a@ =~= b@);
    }
    true
}

/// Copies a list of identities.
fn copy_ids(v: &Vec<PublicId>) -> (r: Vec<PublicId>)
    ensures
        r@ == v@,
{
    let n = v.len();
    let mut out: Vec<PublicId> = Vec::new();
    let mut i: usize = 0;
    while i < n
        invariant
            n == v@.len(),
            i <= n,
            out@ == v@.subrange(0, i as int),
        decreases n - i,
    {
        out.push(v[i]);
        proof {
            assert(out@ =~= v@.subrange(0, i + 1));
        }
        i += 1;
    }
    proof {
        assert(v@.subrange(0, n as int) =~= v@);
    }
    out
}

/// Copies a list of peers.
fn copy_peers(v: &Vec<P2pNode>) -> (r: Vec<P2pNode>)
    ensures
        r@ == v@,
{
    let n = v.len();
    let mut out: Vec<P2pNode> = Vec::new();
    let mut i: usize = 0;
    while i < n
        invariant
            n == v@.len(),
            i <= n,
            out@ == v@.subrange(0, i as int),
        decreases n - i,
    {
        out.push(v[i]);
        proof {
            assert(out@ =~= v@.subrange(0, i + 1));
        }
        i += 1;
    }
    proof {
        assert(v@.subrange(0, n as int) =~= v@);
    }
    out
}

impl AccumulatingEvent {
    /// Whether this fact changes the section's structure.
    pub fn is_structural(&self) -> (r: bool)
        ensures
            r == spec_is_structural(*self),
    {
        match self {
            AccumulatingEvent::StartDkg(_) => true,
            AccumulatingEvent::SectionInfo(_, _) => true,
            _ => false,
        }
    }

    /// A content-equal copy of the fact.
    pub fn duplicate(&self) -> (r: AccumulatingEvent)
        ensures
            event_equiv(r, *self),
    {
        match self {
            AccumulatingEvent::Online(x) => AccumulatingEvent::Online(*x),
            AccumulatingEvent::Offline(x) => AccumulatingEvent::Offline(*x),
            AccumulatingEvent::StartDkg(x) => AccumulatingEvent::StartDkg(copy_ids(x)),
            AccumulatingEvent::SectionInfo(xi, xk) => AccumulatingEvent::SectionInfo(
                EldersInfo { members: copy_peers(&xi.members), prefix: xi.prefix, version: xi.version },
                xk.duplicate(),
            ),
            AccumulatingEvent::AckMessage(x) => AccumulatingEvent::AckMessage(*x),
            AccumulatingEvent::SendAckMessage(x) => AccumulatingEvent::SendAckMessage(*x),
        }
    }
}

impl PartialEq for AccumulatingEvent {
    fn eq(&self, other: &Self) -> (r: bool) {
        match (self, other) {
            (AccumulatingEvent::Online(x), AccumulatingEvent::Online(y)) => *x == *y,
            (AccumulatingEvent::Offline(x), AccumulatingEvent::Offline(y)) => *x == *y,
            (AccumulatingEvent::StartDkg(x), AccumulatingEvent::StartDkg(y)) => same_nodes(x, y),
            (AccumulatingEvent::SectionInfo(xi, xk), AccumulatingEvent::SectionInfo(yi, yk)) => {
                *xi == *yi && *xk == *yk
            },
            (AccumulatingEvent::AckMessage(x), AccumulatingEvent::AckMessage(y)) => *x == *y,
            (AccumulatingEvent::SendAckMessage(x), AccumulatingEvent::SendAckMessage(y)) => *x
                == *y,
            _ => false,
        }
    }
}

impl vstd::std_specs::cmp::PartialEqSpecImpl for AccumulatingEvent {
    open spec fn obeys_eq_spec() -> bool {
        true
    }

    open spec fn eq_spec(&self, other: &AccumulatingEvent) -> bool {
        event_equiv(*self, *other)
    }
}

impl EventSigPayload {
    /// The payload pairing a voter's key share with its signature share.
    pub fn new(pub_key_share: Vec<u8>, sig_share: Vec<u8>) -> (r: EventSigPayload)
        ensures
            r.pub_key_share == pub_key_share,
            r.sig_share == sig_share,
    {
        EventSigPayload { pub_key_share, sig_share }
    }

}

/// One gossip unit: a fact and, where the fact requires it, the voter's
/// signature payload binding the vote to a key candidate.
#[verifier::ext_equal]
#[derive(Debug)]
pub struct NetworkEvent {
    /// The fact voted for.
    pub payload: AccumulatingEvent,
    /// The voter's signature payload, required for `SectionInfo` facts.
    pub signature: Option<EventSigPayload>,
}

} // verus!
