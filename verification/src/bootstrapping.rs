//! The joining node's bootstrap state machine.
//!
//! The node asks known contacts for the section responsible for a name,
//! verifies any offered elder set against its trusted anchor, and either
//! joins, re-bootstraps against new contacts, or times out and retries.
//! The embedding program performs the sends and hands back the responses;
//! every decision is taken here.

use vstd::prelude::*;

use crate::elders_info::EldersInfo;
use crate::error::RoutingError;
use crate::id::FullId;
use crate::messages::BootstrapResponse;
use crate::messages::Message;
use crate::messages::Variant;
use crate::messages::spec_message_trusted;
use crate::messages::verify_message;
use crate::relocation::RelocatePayload;
use crate::relocation::SignedRelocateDetails;
use crate::shared_state::SectionKeyInfo;
use crate::shared_state::TrustStatus;
use crate::xor_name::name_bit;
use crate::xor_name::Prefix;
use crate::xor_name::XorName;
use crate::xor_name::XOR_NAME_BITS;

verus! {

/// Time units after which a pending bootstrap attempt is cancelled and
/// possibly retried.
pub const BOOTSTRAP_TIMEOUT: u64 = 20;

/// How many bits beyond the destination section's prefix a regenerated
/// identity must share with the destination, so the identity stays valid
/// even if the section splits further before relocation completes.
pub const EXTRA_SPLIT_COUNT: usize = 3;

/// The number of bits a regenerated identity shares with the destination: a
/// margin of bits beyond the destination prefix, capped at the name width.
pub open spec fn spec_join_bit_count(prefix_bits: int) -> int {
    if prefix_bits + EXTRA_SPLIT_COUNT <= 256 {
        prefix_bits + EXTRA_SPLIT_COUNT
    } else {
        256
    }
}

/// Where the joining node stands.
#[derive(Clone, Copy, Debug, PartialEq, Eq, Structural)]
pub enum BootstrapState {
    /// No request is outstanding.
    AwaitingConnection,
    /// Requests were sent; responses are awaited.
    AwaitingResponse,
    /// A verified elder set was accepted.
    Joined,
}

/// What a successful bootstrap hands to the next stage.
#[derive(Debug)]
pub struct JoinParams {
    /// The verified elder set to join.
    pub elders_info: EldersInfo,
    /// The key the section signs under.
    pub section_key: SectionKeyInfo,
    /// The relocation payload, if the node came here on a ticket.
    pub relocate_payload: Option<RelocatePayload>,
}

/// The bootstrapping stage: the node is trying to find the section to join.
#[verifier::ext_equal]
#[derive(Debug)]
pub struct Bootstrapping {
    /// Where the node stands.
    pub state: BootstrapState,
    /// The contacts a request was sent to and not yet answered by.
    pub pending_requests: Vec<u64>,
    /// The relocation ticket, if the node is rejoining under a new identity.
    pub relocate_details: Option<SignedRelocateDetails>,
    /// The node's identity, regenerated on joining if it must move into the
    /// destination's range.
    pub full_id: FullId,
    /// The section key the node trusts out of band.
    pub trusted_anchor: SectionKeyInfo,
}

impl Bootstrapping {
    /// No contact is recorded twice.
    pub open spec fn wf(self) -> bool {
        forall|i: int, j: int|
            0 <= i < j < self.pending_requests@.len() ==> self.pending_requests@[i]
                != self.pending_requests@[j]
    }

    /// Whether a request to `addr` is outstanding.
    pub open spec fn spec_pending_contains(self, addr: u64) -> bool {
        self.pending_requests@.contains(addr)
    }

    /// The name the node bootstraps towards: the relocation destination if
    /// it holds a ticket, its own name otherwise.
    pub open spec fn spec_destination(self) -> XorName {
        match self.relocate_details {
            Some(d) => d.destination,
            None => self.full_id.public_id.name,
        }
    }

    /// A fresh bootstrap stage for a node trusting the given anchor.
    pub fn new(
        relocate_details: Option<SignedRelocateDetails>,
        full_id: FullId,
        trusted_anchor: SectionKeyInfo,
    ) -> (r: Bootstrapping)
        ensures
            r.state == BootstrapState::AwaitingConnection,
            r.pending_requests@.len() == 0,
            r.relocate_details == relocate_details,
            r.full_id == full_id,
            r.trusted_anchor == trusted_anchor,
            r.wf(),
    {
        Bootstrapping {
            state: BootstrapState::AwaitingConnection,
            pending_requests: Vec::new(),
            relocate_details,
            full_id,
            trusted_anchor,
        }
    }

    /// The name the node bootstraps towards.
    pub fn bootstrap_destination(&self) -> (r: XorName)
        ensures
            r == self.spec_destination(),
    {
        match &self.relocate_details {
            Some(d) => d.destination,
            None => self.full_id.public_id.name,
        }
    }

    /// Whether a request to `addr` is outstanding.
    fn pending_contains(&self, addr: u64) -> (r: bool)
        ensures
            r == self.spec_pending_contains(addr),
    {
        let n = self.pending_requests.len();
        let mut i: usize = 0;
        while i < n
            invariant
                n == self.pending_requests@.len(),
                i <= n,
                forall|j: int| 0 <= j < i ==> self.pending_requests@[j] != addr,
            decreases n - i,
        {
            if self.pending_requests[i] == addr {
                return true;
            }
            i += 1;
        }
        false
    }

    /// Records an outgoing bootstrap request to `dst` and returns the name
    /// the request asks for; the embedding program performs the send.
    pub fn send_bootstrap_request(&mut self, dst: u64) -> (r: XorName)
        requires
            old(self).wf(),
        ensures
            final(self).wf(),
            r == old(self).spec_destination(),
            final(self).state == BootstrapState::AwaitingResponse,
            final(self).relocate_details == old(self).relocate_details,
            final(self).full_id == old(self).full_id,
            final(self).trusted_anchor == old(self).trusted_anchor,
            forall|a: u64|
                final(self).spec_pending_contains(a) <==> (old(self).spec_pending_contains(a) || a
                    == dst),
    {
        let name = self.bootstrap_destination();
        let ghost pend_pre = self.pending_requests@;
        if !self.pending_contains(dst) {
            self.pending_requests.push(dst);
            proof {
                assert forall|a: int, b: int|
                    0 <= a < b < self.pending_requests@.len() implies self.pending_requests@[a]
                    != self.pending_requests@[b] by {
                    if b == pend_pre.len() {
                        assert(pend_pre[a] == self.pending_requests@[a]);
                    }
                }
            }
        }
        proof {
            assert forall|a: u64|
                self.spec_pending_contains(a) <==> (pend_pre.contains(a) || a == dst) by {
                if pend_pre.contains(dst) {
                    assert(self.pending_requests@ == pend_pre);
                } else {
                    assert(self.pending_requests@ == pend_pre.push(dst));
                    lemma_push_contains(pend_pre, dst, a);
                }
            }
        }
        self.state = BootstrapState::AwaitingResponse;
        name
    }

    /// Classifies and, for a bootstrap response, verifies a received
    /// message. Message kinds for later stages and kinds useless at this
    /// stage are ignored without effect.
    pub fn process_message(&self, msg: &Message) -> (r: Result<(), RoutingError>)
        ensures
            r is Ok <==> (msg.variant is BootstrapResponse ==> spec_message_trusted(
                *msg,
                self.trusted_anchor,
            )),
            r matches Err(e) ==> e == RoutingError::UntrustedMessage,
    {
        match &msg.variant {
            Variant::BootstrapResponse(_) => {
                match verify_message(msg, &self.trusted_anchor) {
                    Ok(()) => Ok(()),
                    Err(e) => Err(e),
                }
            },
            Variant::NeighbourInfo => Ok(()),
            Variant::UserMessage => Ok(()),
            Variant::BouncedUntrustedMessage => Ok(()),
            Variant::DkgMessage => Ok(()),
            Variant::DkgOldElders => Ok(()),
            _ => Ok(()),
        }
    }

    /// Handles one bootstrap response.
    ///
    /// A response from a contact never asked is ignored without side
    /// effects. An offered elder set is accepted only if its proof chain
    /// attests its key from the node's trusted anchor; a response that does
    /// not verify is discarded and the node keeps awaiting responses. A
    /// redirection drops every pending request and records fresh ones for
    /// exactly the listed contacts.
    pub fn handle_bootstrap_response(&mut self, sender: u64, response: BootstrapResponse) -> (r:
        Result<Option<JoinParams>, RoutingError>)
        requires
            old(self).wf(),
        ensures
            final(self).wf(),
            r is Ok,
            !old(self).spec_pending_contains(sender) ==> (*final(self) == *old(self) && (r matches
            Ok(p) && p is None)),
            old(self).spec_pending_contains(sender) ==> match response {
                BootstrapResponse::Join { elders_info, section_key, proof } => {
                    if section_key.version >= old(self).trusted_anchor.version && proof.spec_trust(
                        old(self).trusted_anchor,
                        section_key,
                    ) {
                        &&& final(self).state == BootstrapState::Joined
                        &&& final(self).relocate_details is None
                        &&& final(self).pending_requests == old(self).pending_requests
                        &&& final(self).trusted_anchor == old(self).trusted_anchor
                        &&& (r matches Ok(p) && p matches Some(jp) && {
                            &&& jp.elders_info == elders_info
                            &&& jp.section_key == section_key
                            &&& (jp.relocate_payload is Some <==> old(self).relocate_details
                                is Some)
                            &&& (jp.relocate_payload matches Some(rp) ==> (old(
                                self,
                            ).relocate_details matches Some(d) && rp.details == d
                                && rp.old_public_id == old(self).full_id.public_id))
                        })
                        &&& forall|i: int|
                            0 <= i < spec_join_bit_count(elders_info.prefix.bit_count as int)
                                ==> name_bit(final(self).full_id.public_id.name@, i) == name_bit(
                                old(self).spec_destination()@,
                                i,
                            )
                    } else {
                        *final(self) == *old(self) && (r matches Ok(p) && p is None)
                    }
                },
                BootstrapResponse::Rebootstrap(contacts) => {
                    &&& final(self).state == BootstrapState::AwaitingResponse
                    &&& (forall|a: u64|
                        final(self).spec_pending_contains(a) <==> contacts@.contains(a))
                    &&& final(self).full_id == old(self).full_id
                    &&& final(self).relocate_details == old(self).relocate_details
                    &&& final(self).trusted_anchor == old(self).trusted_anchor
                    &&& (r matches Ok(p) && p is None)
                },
            },
    {
        if !self.pending_contains(sender) {
            return Ok(None);
        }
        match response {
            BootstrapResponse::Join { elders_info, section_key, proof } => {
                match proof.verify(&section_key, &self.trusted_anchor) {
                    TrustStatus::Trusted => {
                        let relocate_payload = self.join_section(&elders_info);
                        self.state = BootstrapState::Joined;
                        Ok(Some(JoinParams { elders_info, section_key, relocate_payload }))
                    },
                    TrustStatus::ProofTooOld => Ok(None),
                    TrustStatus::ProofInvalid => Ok(None),
                }
            },
            BootstrapResponse::Rebootstrap(new_conn_infos) => {
                self.reconnect_to_new_section(new_conn_infos);
                Ok(None)
            },
        }
    }

    /// Prepares to join the offered section: if the node's identity does
    /// not lie within the destination's prefix extended by the split
    /// margin, a fresh identity is drawn and forced under that prefix; a
    /// held relocation ticket is consumed into the join payload.
    fn join_section(&mut self, elders_info: &EldersInfo) -> (r: Option<RelocatePayload>)
        ensures
            final(self).state == old(self).state,
            final(self).pending_requests == old(self).pending_requests,
            final(self).trusted_anchor == old(self).trusted_anchor,
            final(self).relocate_details is None,
            (r is Some) <==> (old(self).relocate_details is Some),
            r matches Some(p) ==> (old(self).relocate_details matches Some(d) && p.details == d
                && p.old_public_id == old(self).full_id.public_id),
            forall|i: int|
                0 <= i < spec_join_bit_count(elders_info.prefix.bit_count as int) ==> name_bit(
                    final(self).full_id.public_id.name@,
                    i,
                ) == name_bit(old(self).spec_destination()@, i),
    {
        let destination: XorName = self.bootstrap_destination();
        let old_full_id = self.full_id;
        let b = elders_info.prefix.bit_count;
        let target: usize = if b >= XOR_NAME_BITS {
            XOR_NAME_BITS
        } else {
            b + EXTRA_SPLIT_COUNT
        };
        // Use a name that will match the destination even after several
        // further splits.
        let name_prefix = Prefix::new(target, &destination);
        if !name_prefix.matches(&self.full_id.public_id.name) {
            self.full_id = FullId::within_range(&name_prefix);
        }
        proof {
            assert(name_prefix.bit_count as int == spec_join_bit_count(
                elders_info.prefix.bit_count as int,
            ));
            assert forall|i: int| 0 <= i < name_prefix.bit_count implies name_bit(
                self.full_id.public_id.name@,
                i,
            ) == name_bit(destination@, i) by {
                assert(name_bit(self.full_id.public_id.name@, i) == name_bit(
                    name_prefix.name@,
                    i,
                ));
                assert(name_bit(destination@, i) == name_bit(name_prefix.name@, i));
            }
        }
        let details_opt = self.relocate_details.take();
        match details_opt {
            Some(details) => Some(RelocatePayload::new(details, old_full_id.public_id)),
            None => None,
        }
    }

    /// Drops every pending request and records a fresh request to each of
    /// the new contacts; the embedding program performs the sends.
    fn reconnect_to_new_section(&mut self, new_conn_infos: Vec<u64>)
        ensures
            final(self).wf(),
            final(self).state == BootstrapState::AwaitingResponse,
            forall|a: u64| final(self).spec_pending_contains(a) <==> new_conn_infos@.contains(a),
            final(self).full_id == old(self).full_id,
            final(self).relocate_details == old(self).relocate_details,
            final(self).trusted_anchor == old(self).trusted_anchor,
    {
        self.pending_requests = Vec::new();
        let n = new_conn_infos.len();
        let mut i: usize = 0;
        while i < n
            invariant
                n == new_conn_infos@.len(),
                i <= n,
                self.wf(),
                self.state == old(self).state,
                self.full_id == old(self).full_id,
                self.relocate_details == old(self).relocate_details,
                self.trusted_anchor == old(self).trusted_anchor,
                forall|a: u64|
                    self.spec_pending_contains(a) <==> new_conn_infos@.subrange(
                        0,
                        i as int,
                    ).contains(a),
            decreases n - i,
        {
            let addr = new_conn_infos[i];
            let ghost pend_pre = self.pending_requests@;
            let ghost pre = new_conn_infos@.subrange(0, i as int);
            let ghost cur = new_conn_infos@.subrange(0, i + 1);
            proof {
                assert forall|a: u64| pend_pre.contains(a) <==> pre.contains(a) by {
                    assert(self.spec_pending_contains(a) <==> pre.contains(a));
                }
                assert(cur =~= pre.push(new_conn_infos@[i as int]));
            }
            if !self.pending_contains(addr) {
                self.pending_requests.push(addr);
                proof {
                    assert forall|a: int, b: int|
                        0 <= a < b < self.pending_requests@.len()
                            implies self.pending_requests@[a] != self.pending_requests@[b] by {
                        if b == pend_pre.len() {
                            assert(pend_pre[a] == self.pending_requests@[a]);
                        }
                    }
                }
            }
            proof {
                assert forall|a: u64| self.spec_pending_contains(a) <==> cur.contains(a) by {
                    lemma_push_contains(pre, new_conn_infos@[i as int], a);
                    if pend_pre.contains(addr) {
                        assert(self.pending_requests@ == pend_pre);
                        assert(pend_pre.contains(a) <==> pre.contains(a));
                    } else {
                        assert(self.pending_requests@ == pend_pre.push(addr));
                        lemma_push_contains(pend_pre, addr, a);
                        assert(pend_pre.contains(a) <==> pre.contains(a));
                    }
                }
            }
            i += 1;
        }
        proof {
            assert(new_conn_infos@.subrange(0, n as int) =~= new_conn_infos@);
            assert forall|a: u64|
                self.spec_pending_contains(a) <==> new_conn_infos@.contains(a) by {
                assert(self.spec_pending_contains(a) <==> new_conn_infos@.subrange(
                    0,
                    i as int,
                ).contains(a));
            }
        }
        self.state = BootstrapState::AwaitingResponse;
    }

    /// A bootstrap attempt timed out: every pending request is dropped and
    /// the caller is told whether there was an attempt to retry.
    pub fn handle_timeout(&mut self) -> (r: bool)
        ensures
            final(self).wf(),
            final(self).pending_requests@.len() == 0,
            final(self).state == BootstrapState::AwaitingConnection,
            final(self).full_id == old(self).full_id,
            final(self).relocate_details == old(self).relocate_details,
            final(self).trusted_anchor == old(self).trusted_anchor,
            r == (old(self).pending_requests@.len() > 0),
    {
        let had_pending = self.pending_requests.len() > 0;
        self.pending_requests = Vec::new();
        self.state = BootstrapState::AwaitingConnection;
        had_pending
    }
}

/// Appending one element to a sequence makes it contain exactly that
/// element and what it already contained.
proof fn lemma_push_contains(s: Seq<u64>, x: u64, a: u64)
    ensures
        s.push(x).contains(a) == (s.contains(a) || a == x),
{
    if s.contains(a) {
        let k = choose|k: int| 0 <= k < s.len() && s[k] == a;
        assert(s.push(x)[k] == a);
    }
    if a == x {
        assert(s.push(x)[s.len() as int] == a);
    }
    if s.push(x).contains(a) {
        let k = choose|k: int| 0 <= k < s.push(x).len() && s.push(x)[k] == a;
        if k < s.len() {
            assert(s[k] == a);
        }
    }
}

} // verus!
