//! The section's own state: current elders, members, and the proof chain.
//!
//! The chain is a single-writer state machine per node instance: accumulated
//! facts are the only thing that mutates it, and other components only read
//! snapshots or submit proposed transitions.

use vstd::prelude::*;

use crate::config::NetworkParams;
use crate::elders_info::EldersInfo;
use crate::error::RoutingError;
use crate::id::P2pNode;
use crate::id::PublicId;
use crate::member_info::AgeCounter;
use crate::member_info::MemberInfo;
use crate::member_info::MemberState;
use crate::member_info::MIN_AGE;
use crate::messages::BootstrapResponse;
use crate::network_event::OnlinePayload;
use crate::shared_state::key_info_equiv;
use crate::shared_state::trimmed_spec;
use crate::shared_state::SectionKeyInfo;
use crate::shared_state::SectionProofBlock;
use crate::shared_state::SectionProofSlice;
use crate::xor_name::Prefix;
use crate::xor_name::XorName;

verus! {

/// What a member reports it has caught up to: the elder-set version and the
/// agreement-engine version it knows.
#[derive(Clone, Copy, Debug, PartialEq, Eq, Structural)]
pub struct MemberKnowledge {
    /// The newest elder-set version the member knows.
    pub elders_version: u64,
    /// The newest agreement-engine version the member knows.
    pub parsec_version: u64,
}

/// The bootstrap snapshot a new member receives from its sponsoring elder
/// set, consumed once to seed its local state.
#[verifier::ext_equal]
#[derive(Debug)]
pub struct GenesisPfxInfo {
    /// The elder set at the trusted starting point.
    pub first_info: EldersInfo,
    /// The public key the starting elder set signs under, as bytes.
    pub first_bls_keys: Vec<u8>,
    /// The serialized agreement-engine state at the starting point.
    pub first_state_serialized: Vec<u8>,
    /// The ages of the members at the starting point.
    pub first_ages: Vec<(PublicId, AgeCounter)>,
    /// The newest elder set known to the sponsors.
    pub latest_info: EldersInfo,
    /// The agreement-engine version at the starting point.
    pub parsec_version: u64,
}

/// A catch-up message for one member: how much proof-chain history it still
/// needs, judged from what it reported knowing.
#[verifier::ext_equal]
#[derive(Debug)]
pub struct GenesisUpdate {
    /// The elder-set version the update brings the member to.
    pub elders_version: u64,
    /// The proof-chain history from the member's reported version to the
    /// tip.
    pub proof: SectionProofSlice,
}

/// The section state owned by one node: parameters, identity, the current
/// elder set, the member roster, reported member knowledge, the proof
/// chain, and the pending key-generation participants.
#[verifier::ext_equal]
#[derive(Debug)]
pub struct Chain {
    /// The network-wide parameters.
    pub network_params: NetworkParams,
    /// The identity of the node owning this state.
    pub our_id: PublicId,
    /// The current elder set.
    pub elders_info: EldersInfo,
    /// Everything the section knows of its members, keyed by name.
    pub members: Vec<MemberInfo>,
    /// What members have reported knowing, keyed by name.
    pub member_knowledge: Vec<(XorName, MemberKnowledge)>,
    /// The history of section signing keys.
    pub proof_chain: SectionProofSlice,
    /// The participants of a pending key generation, if one was agreed.
    pub pending_dkg: Option<Vec<PublicId>>,
    /// The agreement-engine version the node is at.
    pub parsec_version: u64,
}

/// Whether a transition kept the fields no accumulated fact may touch: the
/// network parameters, the owning node's identity and the agreement-engine
/// version.
pub open spec fn unchanged_identity(a: Chain, b: Chain) -> bool {
    &&& b.network_params == a.network_params
    &&& b.our_id == a.our_id
    &&& b.parsec_version == a.parsec_version
}

impl Chain {
    /// Distinct member names, distinct knowledge keys, a valid elder set,
    /// a valid proof chain, and a chain tip no newer than the elder set.
    pub open spec fn wf(self) -> bool {
        &&& self.elders_info.wf()
        &&& self.proof_chain.wf()
        &&& self.proof_chain.spec_tip().version <= self.elders_info.version
        &&& forall|i: int, j: int|
            0 <= i < j < self.members@.len() ==> (#[trigger] self.members@[i]).p2p_node.public_id.name
                != (#[trigger] self.members@[j]).p2p_node.public_id.name
        &&& forall|i: int, j: int|
            0 <= i < j < self.member_knowledge@.len() ==> (#[trigger] self.member_knowledge@[i]).0
                != (#[trigger] self.member_knowledge@[j]).0
    }

    /// Whether a peer of the given name is a current member of the section.
    pub open spec fn spec_is_member(self, name: XorName) -> bool {
        exists|i: int|
            0 <= i < self.members@.len() && (#[trigger] self.members@[i]).p2p_node.public_id.name
                == name && self.members@[i].state == MemberState::Joined
    }

    /// Whether a peer of the given name is one of the current elders.
    pub open spec fn spec_is_elder(self, name: XorName) -> bool {
        self.elders_info.spec_contains(name)
    }

    /// The elder-set version a member last reported knowing, or zero if it
    /// never reported.
    pub open spec fn spec_knowledge_version(self, name: XorName) -> u64 {
        if exists|i: int|
            0 <= i < self.member_knowledge@.len() && (#[trigger] self.member_knowledge@[i]).0
                == name {
            let i = choose|i: int|
                0 <= i < self.member_knowledge@.len() && (#[trigger] self.member_knowledge@[i]).0
                    == name;
            self.member_knowledge@[i].1.elders_version
        } else {
            0u64
        }
    }

    /// Seeds the section state of a newly joined node from its genesis
    /// snapshot: the starting elder set's members become the roster, the
    /// starting key seeds the proof chain, and the newest known elder set
    /// becomes current.
    pub fn new(network_params: NetworkParams, our_id: PublicId, gen_pfx_info: GenesisPfxInfo) -> (r:
        Chain)
        requires
            gen_pfx_info.first_info.wf(),
            gen_pfx_info.latest_info.wf(),
            gen_pfx_info.first_info.version <= gen_pfx_info.latest_info.version,
        ensures
            r.wf(),
            r.network_params == network_params,
            r.our_id == our_id,
            r.member_knowledge@.len() == 0,
            r.elders_info == gen_pfx_info.latest_info,
            r.parsec_version == gen_pfx_info.parsec_version,
            r.proof_chain.blocks@.len() == 0,
            r.proof_chain.genesis.version == gen_pfx_info.first_info.version,
            r.proof_chain.genesis.prefix == gen_pfx_info.first_info.prefix,
            r.proof_chain.genesis.key@ == gen_pfx_info.first_bls_keys@,
            r.members@.len() == gen_pfx_info.first_info.members@.len(),
            forall|k: int|
                0 <= k < r.members@.len() ==> (#[trigger] r.members@[k]).p2p_node
                    == gen_pfx_info.first_info.members@[k] && r.members@[k].state
                    == MemberState::Joined,
            r.pending_dkg is None,
    {
        let GenesisPfxInfo {
            first_info,
            first_bls_keys,
            first_state_serialized: _,
            first_ages,
            latest_info,
            parsec_version,
        } = gen_pfx_info;
        let n = first_info.member_nodes().len();
        let mut members: Vec<MemberInfo> = Vec::new();
        let mut i: usize = 0;
        while i < n
            invariant
                n == first_info.members@.len(),
                i <= n,
                members@.len() == i,
                forall|k: int|
                    0 <= k < i ==> (#[trigger] members@[k]).p2p_node == first_info.members@[k]
                        && members@[k].state == MemberState::Joined,
            decreases n - i,
        {
            let node = first_info.member_nodes()[i];
            let age_counter = match find_age(&first_ages, &node.public_id) {
                Some(c) => c,
                None => AgeCounter::from_age(MIN_AGE),
            };
            members.push(MemberInfo { p2p_node: node, age_counter, state: MemberState::Joined });
            i += 1;
        }
        let genesis_key = SectionKeyInfo::new(first_info.version, first_info.prefix, first_bls_keys);
        let chain = Chain {
            network_params,
            our_id,
            elders_info: latest_info,
            members,
            member_knowledge: Vec::new(),
            proof_chain: SectionProofSlice::from_genesis(genesis_key),
            pending_dkg: None,
            parsec_version,
        };
        proof {
            assert forall|a: int, b: int|
                0 <= a < b < chain.members@.len() implies (
            #[trigger] chain.members@[a]).p2p_node.public_id.name != (
            #[trigger] chain.members@[b]).p2p_node.public_id.name by {
                assert(first_info.members@[a].public_id.name
                    != first_info.members@[b].public_id.name);
            }
        }
        chain
    }

    /// The section's current prefix.
    pub fn our_prefix(&self) -> (r: &Prefix)
        ensures
            r == self.elders_info.prefix,
    {
        &self.elders_info.prefix
    }

    /// The current elder set.
    pub fn our_elders(&self) -> (r: &EldersInfo)
        ensures
            r == self.elders_info,
    {
        &self.elders_info
    }

    /// Where the member of the given name stands in the roster.
    fn find_member(&self, name: &XorName) -> (r: Option<usize>)
        ensures
            match r {
                Some(i) => i < self.members@.len() && self.members@[i as int].p2p_node.public_id.name
                    == name,
                None => forall|i: int|
                    0 <= i < self.members@.len() ==> (
                    #[trigger] self.members@[i]).p2p_node.public_id.name != name,
            },
    {
        let n = self.members.len();
        let mut i: usize = 0;
        while i < n
            invariant
                n == self.members@.len(),
                i <= n,
                forall|j: int|
                    0 <= j < i ==> (#[trigger] self.members@[j]).p2p_node.public_id.name != name,
            decreases n - i,
        {
            if self.members[i].p2p_node.public_id.name == *name {
                return Some(i);
            }
            i += 1;
        }
        None
    }

    /// Whether the given peer is a current member of the section.
    pub fn is_peer_our_member(&self, id: &PublicId) -> (r: bool)
        requires
            self.wf(),
        ensures
            r == self.spec_is_member(id.name),
    {
        match self.find_member(&id.name) {
            Some(i) => {
                let joined = match self.members[i].state {
                    MemberState::Joined => true,
                    MemberState::Left => false,
                    MemberState::Relocated => false,
                };
                proof {
                    if !joined {
                        assert forall|j: int|
                            0 <= j < self.members@.len() implies !((
                        #[trigger] self.members@[j]).p2p_node.public_id.name == id.name
                            && self.members@[j].state == MemberState::Joined) by {
                            if j < i {
                                assert(self.members@[j].p2p_node.public_id.name
                                    != self.members@[i as int].p2p_node.public_id.name);
                            } else if i < j {
                                assert(self.members@[i as int].p2p_node.public_id.name
                                    != self.members@[j].p2p_node.public_id.name);
                            }
                        }
                    }
                }
                joined
            },
            None => false,
        }
    }

    /// Whether the given peer is one of the current elders.
    pub fn is_peer_our_elder(&self, id: &PublicId) -> (r: bool)
        ensures
            r == self.spec_is_elder(id.name),
    {
        self.elders_info.contains_id(id)
    }

    /// Applies an accumulated `Online` fact: the peer joins the roster at
    /// the given age (but never below the minimum age). A name already on
    /// the roster, in whatever state, is left untouched.
    pub fn handle_online(&mut self, payload: OnlinePayload) -> (added: bool)
        requires
            old(self).wf(),
        ensures
            final(self).wf(),
            unchanged_identity(*old(self), *final(self)),
            final(self).elders_info == old(self).elders_info,
            final(self).proof_chain == old(self).proof_chain,
            final(self).member_knowledge == old(self).member_knowledge,
            final(self).pending_dkg == old(self).pending_dkg,
            added <==> (forall|i: int|
                0 <= i < old(self).members@.len() ==> (
                #[trigger] old(self).members@[i]).p2p_node.public_id.name
                    != payload.p2p_node.public_id.name),
            !added ==> *final(self) == *old(self),
            added ==> final(self).members@ == old(self).members@.push(
                MemberInfo {
                    p2p_node: payload.p2p_node,
                    age_counter: AgeCounter(
                        if payload.age >= MIN_AGE {
                            payload.age
                        } else {
                            MIN_AGE
                        },
                    ),
                    state: MemberState::Joined,
                },
            ),
            added ==> final(self).spec_is_member(payload.p2p_node.public_id.name),
    {
        match self.find_member(&payload.p2p_node.public_id.name) {
            Some(_) => false,
            None => {
                let ghost prev = *self;
                self.members.push(MemberInfo::new(payload.p2p_node, payload.age));
                proof {
                    assert forall|a: int, b: int|
                        0 <= a < b < self.members@.len() implies (
                    #[trigger] self.members@[a]).p2p_node.public_id.name != (
                    #[trigger] self.members@[b]).p2p_node.public_id.name by {
                        if b == prev.members@.len() {
                            assert(self.members@[a] == prev.members@[a]);
                        }
                    }
                    assert(self.members@[prev.members@.len() as int].state
                        == MemberState::Joined);
                }
                true
            },
        }
    }

    /// Applies an accumulated `Offline` fact: the member of the given name
    /// leaves the roster. Reports whether it was a current member.
    pub fn handle_offline(&mut self, pub_id: &PublicId) -> (removed: bool)
        requires
            old(self).wf(),
        ensures
            final(self).wf(),
            unchanged_identity(*old(self), *final(self)),
            final(self).elders_info == old(self).elders_info,
            final(self).proof_chain == old(self).proof_chain,
            final(self).member_knowledge == old(self).member_knowledge,
            final(self).pending_dkg == old(self).pending_dkg,
            removed == old(self).spec_is_member(pub_id.name),
            !final(self).spec_is_member(pub_id.name),
            !removed ==> *final(self) == *old(self),
            removed ==> exists|i: int|
                0 <= i < old(self).members@.len() && (
                #[trigger] old(self).members@[i]).p2p_node.public_id.name == pub_id.name
                    && final(self).members@ == old(self).members@.update(
                    i,
                    MemberInfo {
                        p2p_node: old(self).members@[i].p2p_node,
                        age_counter: old(self).members@[i].age_counter,
                        state: MemberState::Left,
                    },
                ),
    {
        match self.find_member(&pub_id.name) {
            Some(i) => {
                let was_joined = match self.members[i].state {
                    MemberState::Joined => true,
                    MemberState::Left => false,
                    MemberState::Relocated => false,
                };
                if !was_joined {
                    proof {
                        assert forall|j: int|
                            0 <= j < self.members@.len() implies !((
                        #[trigger] self.members@[j]).p2p_node.public_id.name == pub_id.name
                            && self.members@[j].state == MemberState::Joined) by {
                            if j != i {
                            }
                        }
                    }
                    return false;
                }
                let ghost prev = *self;
                let entry = self.members.remove(i);
                let updated = MemberInfo {
                    p2p_node: entry.p2p_node,
                    age_counter: entry.age_counter,
                    state: MemberState::Left,
                };
                self.members.insert(i, updated);
                proof {
                    assert forall|j: int|
                        0 <= j < prev.members@.len() && j != i implies self.members@[j]
                        == prev.members@[j] by {
                        if j < i {
                        } else {
                            assert(self.members@[j] == prev.members@.remove(i as int).insert(
                                i as int,
                                updated,
                            )[j]);
                        }
                    }
                    assert(self.members@ =~= prev.members@.update(i as int, updated));
                    assert forall|a: int, b: int|
                        0 <= a < b < self.members@.len() implies (
                    #[trigger] self.members@[a]).p2p_node.public_id.name != (
                    #[trigger] self.members@[b]).p2p_node.public_id.name by {
                        assert(self.members@[a].p2p_node == prev.members@[a].p2p_node);
                        assert(self.members@[b].p2p_node == prev.members@[b].p2p_node);
                    }
                    assert forall|j: int|
                        0 <= j < self.members@.len() implies !((
                    #[trigger] self.members@[j]).p2p_node.public_id.name == pub_id.name
                        && self.members@[j].state == MemberState::Joined) by {
                        if j != i {
                            assert(self.members@[j] == prev.members@[j]);
                        }
                    }
                }
                true
            },
            None => false,
        }
    }

    /// Applies an accumulated `StartDkg` fact: the participant set of the
    /// agreed key generation is recorded; the generation itself runs in the
    /// agreement engine, and its result comes back as a `SectionInfo` fact.
    pub fn handle_start_dkg(&mut self, participants: Vec<PublicId>)
        requires
            old(self).wf(),
        ensures
            final(self).wf(),
            unchanged_identity(*old(self), *final(self)),
            final(self).pending_dkg matches Some(p) && p@ == participants@,
            final(self).elders_info == old(self).elders_info,
            final(self).proof_chain == old(self).proof_chain,
            final(self).members == old(self).members,
            final(self).member_knowledge == old(self).member_knowledge,
    {
        self.pending_dkg = Some(participants);
    }

    /// Applies an accumulated `SectionInfo` fact: the section transitions
    /// to the new elder set, provided the key info is bound to exactly that
    /// set, the version grows by exactly one, and the combined threshold
    /// signature over the key info validates against the current chain tip.
    /// The proof chain is extended in the same step, so its tip version
    /// grows by exactly one as well. A rejected transition leaves the state
    /// unchanged.
    pub fn handle_section_info(
        &mut self,
        new_elders_info: EldersInfo,
        key_info: SectionKeyInfo,
        signature: Vec<u8>,
    ) -> (r: Result<(), RoutingError>)
        requires
            old(self).wf(),
            new_elders_info.wf(),
        ensures
            final(self).wf(),
            unchanged_identity(*old(self), *final(self)),
            r is Ok <==> (key_info.version == new_elders_info.version && key_info.prefix
                == new_elders_info.prefix && new_elders_info.version == old(
                self,
            ).elders_info.version + 1 && old(self).proof_chain.spec_can_extend(
                key_info,
                signature@,
            )),
            r is Err ==> *final(self) == *old(self),
            !(key_info.version == new_elders_info.version && key_info.prefix
                == new_elders_info.prefix) ==> r == Err::<(), RoutingError>(
                RoutingError::InvalidMessage,
            ),
            r is Ok ==> {
                &&& final(self).elders_info == new_elders_info
                &&& final(self).proof_chain.blocks@ == old(self).proof_chain.blocks@.push(
                    SectionProofBlock { key_info, sig: signature },
                )
                &&& final(self).proof_chain.spec_tip().version == new_elders_info.version
                &&& final(self).pending_dkg is None
                &&& final(self).members == old(self).members
                &&& final(self).member_knowledge == old(self).member_knowledge
            },
    {
        if !(key_info.version == new_elders_info.version && key_info.prefix
            == new_elders_info.prefix) {
            return Err(RoutingError::InvalidMessage);
        }
        if !(self.elders_info.version < u64::MAX && new_elders_info.version
            == self.elders_info.version + 1) {
            proof {
                assert(!old(self).proof_chain.spec_can_extend(key_info, signature@) || !(
                new_elders_info.version == old(self).elders_info.version + 1));
            }
            return Err(RoutingError::InvalidElderVersion);
        }
        match self.proof_chain.extend(key_info, signature) {
            Ok(()) => {
                self.elders_info = new_elders_info;
                self.pending_dkg = None;
                Ok(())
            },
            Err(e) => Err(e),
        }
    }

    /// Records what a member reported it has caught up to.
    pub fn handle_member_knowledge(&mut self, p2p_node: P2pNode, knowledge: MemberKnowledge)
        requires
            old(self).wf(),
        ensures
            final(self).wf(),
            unchanged_identity(*old(self), *final(self)),
            final(self).spec_knowledge_version(p2p_node.public_id.name)
                == knowledge.elders_version,
            final(self).elders_info == old(self).elders_info,
            final(self).proof_chain == old(self).proof_chain,
            final(self).members == old(self).members,
            final(self).pending_dkg == old(self).pending_dkg,
            (exists|f: int|
                0 <= f < old(self).member_knowledge@.len()
                    && (#[trigger] old(self).member_knowledge@[f]).0 == p2p_node.public_id.name
                    && final(self).member_knowledge@ == old(self).member_knowledge@.update(
                    f,
                    (p2p_node.public_id.name, knowledge),
                )) || ((forall|j: int|
                0 <= j < old(self).member_knowledge@.len()
                    ==> (#[trigger] old(self).member_knowledge@[j]).0 != p2p_node.public_id.name)
                && final(self).member_knowledge@ == old(self).member_knowledge@.push(
                (p2p_node.public_id.name, knowledge),
            )),
    {
        let name = p2p_node.public_id.name;
        let n = self.member_knowledge.len();
        let mut i: usize = 0;
        let mut found: Option<usize> = None;
        while i < n
            invariant
                n == self.member_knowledge@.len(),
                i <= n,
                match found {
                    Some(f) => f < i && self.member_knowledge@[f as int].0 == name,
                    None => forall|j: int|
                        0 <= j < i ==> (#[trigger] self.member_knowledge@[j]).0 != name,
                },
            decreases n - i,
        {
            if self.member_knowledge[i].0 == name {
                found = Some(i);
                i = n;
            } else {
                i += 1;
            }
        }
        let ghost prev = *self;
        match found {
            Some(f) => {
                let _ = self.member_knowledge.remove(f);
                self.member_knowledge.insert(f, (name, knowledge));
                proof {
                    assert forall|j: int|
                        0 <= j < prev.member_knowledge@.len() && j != f
                            implies self.member_knowledge@[j] == prev.member_knowledge@[j] by {
                        if j < f {
                        } else {
                            assert(self.member_knowledge@[j] == prev.member_knowledge@.remove(
                                f as int,
                            ).insert(f as int, (name, knowledge))[j]);
                        }
                    }
                    assert(self.member_knowledge@ =~= prev.member_knowledge@.update(
                        f as int,
                        (name, knowledge),
                    ));
                    assert forall|a: int, b: int|
                        0 <= a < b < self.member_knowledge@.len() implies (
                    #[trigger] self.member_knowledge@[a]).0 != (
                    #[trigger] self.member_knowledge@[b]).0 by {
                        assert(self.member_knowledge@[a].0 == prev.member_knowledge@[a].0);
                        assert(self.member_knowledge@[b].0 == prev.member_knowledge@[b].0);
                    }
                    lemma_knowledge_lookup(*self, f as int);
                }
            },
            None => {
                self.member_knowledge.push((name, knowledge));
                proof {
                    assert forall|a: int, b: int|
                        0 <= a < b < self.member_knowledge@.len() implies (
                    #[trigger] self.member_knowledge@[a]).0 != (
                    #[trigger] self.member_knowledge@[b]).0 by {
                        if b == prev.member_knowledge@.len() {
                            assert(self.member_knowledge@[a] == prev.member_knowledge@[a]);
                        }
                    }
                    lemma_knowledge_lookup(*self, prev.member_knowledge@.len() as int);
                }
            },
        }
    }

    /// The elder-set version a member last reported knowing, or zero.
    fn knowledge_version(&self, name: &XorName) -> (r: u64)
        requires
            self.wf(),
        ensures
            r == self.spec_knowledge_version(*name),
    {
        let n = self.member_knowledge.len();
        let mut i: usize = 0;
        while i < n
            invariant
                self.wf(),
                n == self.member_knowledge@.len(),
                i <= n,
                forall|j: int| 0 <= j < i ==> (#[trigger] self.member_knowledge@[j]).0 != name,
            decreases n - i,
        {
            if self.member_knowledge[i].0 == *name {
                proof {
                    lemma_knowledge_lookup(*self, i as int);
                }
                return self.member_knowledge[i].1.elders_version;
            }
            i += 1;
        }
        0
    }

    /// Builds one catch-up message for every current member that is not an
    /// elder, trimming the proof chain to what the member still needs,
    /// judged from the version it last reported knowing.
    pub fn create_genesis_updates(&self) -> (r: Vec<(P2pNode, GenesisUpdate)>)
        requires
            self.wf(),
        ensures
            forall|k: int|
                0 <= k < r@.len() ==> {
                    &&& self.spec_is_member((#[trigger] r@[k]).0.public_id.name)
                    &&& !self.spec_is_elder(r@[k].0.public_id.name)
                    &&& r@[k].1.elders_version == self.elders_info.version
                    &&& trimmed_spec(
                        self.proof_chain,
                        self.spec_knowledge_version(r@[k].0.public_id.name),
                        r@[k].1.proof,
                    )
                },
            forall|j: int|
                0 <= j < self.members@.len() && (#[trigger] self.members@[j]).state
                    == MemberState::Joined && !self.spec_is_elder(
                    self.members@[j].p2p_node.public_id.name,
                ) ==> exists|k: int|
                    0 <= k < r@.len() && (#[trigger] r@[k]).0 == self.members@[j].p2p_node,
    {
        let n = self.members.len();
        let mut out: Vec<(P2pNode, GenesisUpdate)> = Vec::new();
        let mut i: usize = 0;
        while i < n
            invariant
                self.wf(),
                n == self.members@.len(),
                i <= n,
                forall|k: int|
                    0 <= k < out@.len() ==> {
                        &&& self.spec_is_member((#[trigger] out@[k]).0.public_id.name)
                        &&& !self.spec_is_elder(out@[k].0.public_id.name)
                        &&& out@[k].1.elders_version == self.elders_info.version
                        &&& trimmed_spec(
                            self.proof_chain,
                            self.spec_knowledge_version(out@[k].0.public_id.name),
                            out@[k].1.proof,
                        )
                    },
                forall|j: int|
                    0 <= j < i && (#[trigger] self.members@[j]).state == MemberState::Joined
                        && !self.spec_is_elder(self.members@[j].p2p_node.public_id.name)
                        ==> exists|k: int|
                        0 <= k < out@.len() && (#[trigger] out@[k]).0 == self.members@[j].p2p_node,
            decreases n - i,
        {
            let m = &self.members[i];
            let joined = match m.state {
                MemberState::Joined => true,
                MemberState::Left => false,
                MemberState::Relocated => false,
            };
            if joined && !self.elders_info.contains(&m.p2p_node.public_id.name) {
                let kv = self.knowledge_version(&m.p2p_node.public_id.name);
                let update = GenesisUpdate {
                    elders_version: self.elders_info.version(),
                    proof: self.proof_chain.trimmed_from(kv),
                };
                let ghost out_pre = out@;
                out.push((m.p2p_node, update));
                proof {
                    assert(self.spec_is_member(self.members@[i as int].p2p_node.public_id.name));
                    assert forall|j: int|
                        0 <= j < i + 1 && (#[trigger] self.members@[j]).state
                            == MemberState::Joined && !self.spec_is_elder(
                            self.members@[j].p2p_node.public_id.name,
                        ) implies exists|k: int|
                        0 <= k < out@.len() && (#[trigger] out@[k]).0
                            == self.members@[j].p2p_node by {
                        if j < i {
                            let k0 = choose|k: int|
                                0 <= k < out_pre.len() && (#[trigger] out_pre[k]).0
                                    == self.members@[j].p2p_node;
                            assert(out@[k0].0 == self.members@[j].p2p_node);
                        } else {
                            assert(out@[out_pre.len() as int].0 == self.members@[j].p2p_node);
                        }
                    }
                }
            }
            i += 1;
        }
        out
    }

    /// Answers a bootstrap request for `dst_name`: if this section is
    /// responsible for the name, the joiner is offered the current elder
    /// set, the current key and the proof chain attesting it; otherwise the
    /// joiner is redirected to the elders' own addresses to try again.
    pub fn handle_bootstrap_request(&self, dst_name: &XorName) -> (r: BootstrapResponse)
        requires
            self.wf(),
        ensures
            self.elders_info.prefix.spec_matches(dst_name@) ==> (r matches
                BootstrapResponse::Join { elders_info, section_key, proof } && {
                &&& elders_info.equiv(self.elders_info)
                &&& key_info_equiv(section_key, self.proof_chain.spec_tip())
                &&& proof.wf()
                &&& proof.num_keys() == self.proof_chain.num_keys()
                &&& forall|k: int|
                    0 <= k < proof.num_keys() ==> key_info_equiv(
                        #[trigger] proof.spec_key_at(k),
                        self.proof_chain.spec_key_at(k),
                    )
            }),
            !self.elders_info.prefix.spec_matches(dst_name@) ==> (r matches
                BootstrapResponse::Rebootstrap(contacts) && contacts@.len()
                == self.elders_info.members@.len() && forall|k: int|
                0 <= k < contacts@.len() ==> contacts@[k]
                    == self.elders_info.members@[k].peer_addr),
    {
        if self.elders_info.prefix().matches(dst_name) {
            let elders_info = self.elders_info.duplicate();
            let section_key = {
                let tip = self.proof_chain.last_key_info();
                tip.duplicate()
            };
            let proof = self.proof_chain.duplicate();
            BootstrapResponse::Join { elders_info, section_key, proof }
        } else {
            let nodes = self.elders_info.member_nodes();
            let n = nodes.len();
            let mut contacts: Vec<u64> = Vec::new();
            let mut i: usize = 0;
            while i < n
                invariant
                    n == self.elders_info.members@.len(),
                    nodes@ == self.elders_info.members@,
                    i <= n,
                    contacts@.len() == i,
                    forall|k: int|
                        0 <= k < i ==> contacts@[k] == self.elders_info.members@[k].peer_addr,
                decreases n - i,
            {
                contacts.push(nodes[i].peer_addr);
                i += 1;
            }
            BootstrapResponse::Rebootstrap(contacts)
        }
    }
}

/// The age recorded for an identity in a genesis snapshot, if any.
fn find_age(ages: &Vec<(PublicId, AgeCounter)>, id: &PublicId) -> (r: Option<AgeCounter>) {
    let n = ages.len();
    let mut i: usize = 0;
    while i < n
        invariant
            n == ages@.len(),
            i <= n,
        decreases n - i,
    {
        if ages[i].0 == *id {
            return Some(ages[i].1);
        }
        i += 1;
    }
    None
}

/// In a knowledge table with distinct keys, the entry found at `f` is the
/// one the lookup spec denotes.
proof fn lemma_knowledge_lookup(c: Chain, f: int)
    requires
        0 <= f < c.member_knowledge@.len(),
        forall|i: int, j: int|
            0 <= i < j < c.member_knowledge@.len() ==> (#[trigger] c.member_knowledge@[i]).0 != (
            #[trigger] c.member_knowledge@[j]).0,
    ensures
        c.spec_knowledge_version(c.member_knowledge@[f].0) == c.member_knowledge@[f].1.elders_version,
{
    let name = c.member_knowledge@[f].0;
    assert(exists|i: int|
        0 <= i < c.member_knowledge@.len() && (#[trigger] c.member_knowledge@[i]).0 == name);
    let i = choose|i: int|
        0 <= i < c.member_knowledge@.len() && (#[trigger] c.member_knowledge@[i]).0 == name;
    if i < f {
        assert(false);
    } else if f < i {
        assert(false);
    }
}

} // verus!
