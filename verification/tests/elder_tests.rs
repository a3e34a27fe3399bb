//! Driving the accumulator and the chain through elder churn.

use routing::chain::{Chain, GenesisPfxInfo, MemberKnowledge};
use routing::error::RoutingError;
use routing::chain_accumulator::EventAccumulator;
use routing::config::NetworkParams;
use routing::elders_info::{elders_info_for_test, EldersInfo};
use routing::id::{P2pNode, PublicId};
use routing::member_info::{AgeCounter, MIN_AGE};
use routing::network_event::{AccumulatingEvent, EventSigPayload, NetworkEvent, OnlinePayload};
use routing::shared_state::{
    verify_proof_chain_contains, verify_proof_chain_does_not_contain, SectionKeyInfo,
};
use routing::xor_name::{Prefix, XorName};
use routing::ELDER_SIZE;
use threshold_crypto::SecretKeySet;

// Minimal number of votes to reach accumulation.
const ACCUMULATE_VOTE_COUNT: usize = 5;

fn make_name(seed: u8) -> XorName {
    let mut bytes = [0u8; 32];
    bytes[0] = seed;
    bytes[31] = seed.wrapping_mul(31);
    XorName(bytes)
}

fn gen_node(seed: u8) -> P2pNode {
    P2pNode::new(PublicId { name: make_name(seed) }, seed as u64)
}

struct DkgToSectionInfo {
    new_sk_set: SecretKeySet,
    new_elders_info: EldersInfo,
}

struct ElderUnderTest {
    chain: Chain,
    accumulator: EventAccumulator,
    sk_set: SecretKeySet,
    candidate: P2pNode,
}

impl ElderUnderTest {
    fn new(sec_size: usize) -> Self {
        let mut rng = rand::thread_rng();
        let nodes: Vec<P2pNode> = (1..=sec_size as u8).map(gen_node).collect();
        let prefix = Prefix::new(0, &make_name(0));
        let elders_info = elders_info_for_test(nodes.clone(), prefix, 0).unwrap();
        let sk_set = SecretKeySet::random(ACCUMULATE_VOTE_COUNT - 1, &mut rng);
        let first_bls_keys = sk_set.public_keys().public_key().to_bytes().to_vec();
        let first_ages = nodes
            .iter()
            .map(|n| (*n.public_id(), AgeCounter::from_age(MIN_AGE)))
            .collect::<Vec<_>>();
        let gen_pfx_info = GenesisPfxInfo {
            first_info: elders_info.duplicate(),
            first_bls_keys,
            first_state_serialized: Vec::new(),
            first_ages,
            latest_info: elders_info,
            parsec_version: 0,
        };
        let our_id = *nodes[0].public_id();
        let chain = Chain::new(NetworkParams::default(), our_id, gen_pfx_info);
        let accumulator = EventAccumulator::new();
        let candidate = gen_node(100);
        Self { chain, accumulator, sk_set, candidate }
    }

    fn elder_ids(&self) -> Vec<PublicId> {
        self.chain
            .our_elders()
            .member_nodes()
            .iter()
            .map(|n| *n.public_id())
            .collect()
    }

    fn n_vote_for(&mut self, count: usize, event: &AccumulatingEvent) {
        let voters = self.elder_ids();
        assert!(count <= voters.len());
        for voter in voters.into_iter().take(count) {
            let gossip = NetworkEvent {
                payload: event.duplicate(),
                signature: self.sig_payload_for(event, &voter),
            };
            self.accumulator
                .vote(self.chain.our_elders(), gossip.payload, voter, gossip.signature)
                .unwrap();
        }
    }

    fn sig_payload_for(
        &self,
        event: &AccumulatingEvent,
        voter: &PublicId,
    ) -> Option<EventSigPayload> {
        match event {
            AccumulatingEvent::SectionInfo(_, key_info) => {
                let idx = self
                    .chain
                    .our_elders()
                    .member_nodes()
                    .iter()
                    .position(|n| n.public_id() == voter)
                    .unwrap();
                let share = self.sk_set.secret_key_share(idx);
                let msg = key_info.signable_bytes();
                Some(EventSigPayload::new(
                    self.sk_set
                        .public_keys()
                        .public_key_share(idx)
                        .to_bytes()
                        .to_vec(),
                    share.sign(&msg).to_bytes().to_vec(),
                ))
            }
            _ => None,
        }
    }

    fn accumulate(&mut self) -> (AccumulatingEvent, routing::chain_accumulator::AccumulatingProof) {
        self.accumulator
            .try_accumulate(self.chain.our_elders())
            .expect("event should have accumulated")
    }

    fn accumulate_online(&mut self, p2p_node: P2pNode) {
        let payload = OnlinePayload { p2p_node, age: MIN_AGE, their_knowledge: None };
        let event = AccumulatingEvent::Online(payload);
        self.n_vote_for(ACCUMULATE_VOTE_COUNT, &event);
        match self.accumulate().0 {
            AccumulatingEvent::Online(p) => {
                self.chain.handle_online(p);
            }
            _ => panic!("expected an online event"),
        }
    }

    fn accumulate_offline(&mut self, offline_payload: PublicId) {
        let event = AccumulatingEvent::Offline(offline_payload);
        self.n_vote_for(ACCUMULATE_VOTE_COUNT, &event);
        match self.accumulate().0 {
            AccumulatingEvent::Offline(id) => {
                self.chain.handle_offline(&id);
            }
            _ => panic!("expected an offline event"),
        }
    }

    fn accumulate_start_dkg(&mut self, info: &DkgToSectionInfo) {
        let participants: Vec<PublicId> = info
            .new_elders_info
            .member_nodes()
            .iter()
            .map(|n| *n.public_id())
            .collect();
        let event = AccumulatingEvent::StartDkg(participants);
        self.n_vote_for(ACCUMULATE_VOTE_COUNT, &event);
        match self.accumulate().0 {
            AccumulatingEvent::StartDkg(p) => self.chain.handle_start_dkg(p),
            _ => panic!("expected a start-dkg event"),
        }
    }

    fn accumulate_section_info(&mut self, new_info: DkgToSectionInfo) {
        let new_pk_bytes = new_info
            .new_sk_set
            .public_keys()
            .public_key()
            .to_bytes()
            .to_vec();
        let key_info = SectionKeyInfo::from_elders_info(&new_info.new_elders_info, new_pk_bytes);
        let event = AccumulatingEvent::SectionInfo(
            new_info.new_elders_info.duplicate(),
            key_info.duplicate(),
        );
        self.n_vote_for(ACCUMULATE_VOTE_COUNT, &event);
        let (event, _proof) = self.accumulate();
        match event {
            AccumulatingEvent::SectionInfo(elders, key) => {
                let msg = key.signable_bytes();
                let shares: Vec<_> = (0..ACCUMULATE_VOTE_COUNT)
                    .map(|i| (i, self.sk_set.secret_key_share(i).sign(&msg)))
                    .collect();
                let combined = self
                    .sk_set
                    .public_keys()
                    .combine_signatures(shares.iter().map(|(i, s)| (*i, s)))
                    .unwrap();
                self.chain
                    .handle_section_info(elders, key, combined.to_bytes().to_vec())
                    .unwrap();
                self.sk_set = new_info.new_sk_set;
            }
            _ => panic!("expected a section-info event"),
        }
    }

    // Accumulate `AckMessage` for the latest version of our own section.
    fn accumulate_self_ack_message(&mut self) {
        let event = AccumulatingEvent::AckMessage(routing::network_event::AckMessagePayload {
            dst_name: self.chain.our_prefix().name(),
            src_prefix: *self.chain.our_prefix(),
            ack_version: self.chain.our_elders().version(),
        });
        let all = self.chain.our_elders().len();
        self.n_vote_for(all, &event);
        let _ = self.accumulate();
    }

    fn new_elders_info_with_candidate(&mut self) -> DkgToSectionInfo {
        assert!(
            self.chain.our_elders().len() < ELDER_SIZE,
            "there are already ELDER_SIZE elders - the candidate won't be promoted"
        );
        let mut members = self.chain.our_elders().member_nodes().clone();
        members.push(self.candidate);
        let new_elders_info =
            EldersInfo::new(members, *self.chain.our_prefix(), Some(self.chain.our_elders()))
                .unwrap();
        self.updated_keys(new_elders_info)
    }

    fn new_elders_info_without_candidate(&mut self) -> DkgToSectionInfo {
        let members: Vec<P2pNode> = self
            .chain
            .our_elders()
            .member_nodes()
            .iter()
            .filter(|n| n.public_id() != self.candidate.public_id())
            .cloned()
            .collect();
        let new_elders_info =
            EldersInfo::new(members, *self.chain.our_prefix(), Some(self.chain.our_elders()))
                .unwrap();
        self.updated_keys(new_elders_info)
    }

    // Returns the elder set after an elder is dropped and an adult is
    // promoted to take its place.
    fn new_elders_info_after_offline_and_promote(
        &mut self,
        dropped_elder_id: &PublicId,
        promoted_adult_node: P2pNode,
    ) -> DkgToSectionInfo {
        let mut members: Vec<P2pNode> = self
            .chain
            .our_elders()
            .member_nodes()
            .iter()
            .filter(|n| n.public_id() != dropped_elder_id)
            .cloned()
            .collect();
        members.push(promoted_adult_node);
        let new_elders_info =
            EldersInfo::new(members, *self.chain.our_prefix(), Some(self.chain.our_elders()))
                .unwrap();
        self.updated_keys(new_elders_info)
    }

    fn updated_keys(&mut self, new_elders_info: EldersInfo) -> DkgToSectionInfo {
        let mut rng = rand::thread_rng();
        let new_sk_set = SecretKeySet::random(ACCUMULATE_VOTE_COUNT - 1, &mut rng);
        DkgToSectionInfo { new_sk_set, new_elders_info }
    }

    fn has_unpolled_observations(&mut self) -> bool {
        self.accumulator
            .try_accumulate(self.chain.our_elders())
            .is_some()
    }

    fn is_candidate_member(&self) -> bool {
        self.chain.is_peer_our_member(self.candidate.public_id())
    }

    fn is_candidate_elder(&self) -> bool {
        self.chain.is_peer_our_elder(self.candidate.public_id())
    }

    // Drop an existing elder and promote an adult to take its place. Drive
    // the whole process to completion by casting all necessary votes and
    // letting them accumulate.
    fn perform_offline_and_promote(
        &mut self,
        dropped_elder_id: &PublicId,
        promoted_adult_node: P2pNode,
    ) {
        let new_info =
            self.new_elders_info_after_offline_and_promote(dropped_elder_id, promoted_adult_node);
        self.accumulate_offline(*dropped_elder_id);
        self.accumulate_start_dkg(&new_info);
        self.accumulate_section_info(new_info);
        self.accumulate_self_ack_message();
    }
}

#[test]
fn construct() {
    let mut elder_test = ElderUnderTest::new(ELDER_SIZE - 1);

    assert!(!elder_test.has_unpolled_observations());
    assert!(!elder_test.is_candidate_elder());
}

#[test]
fn when_accumulate_online_then_node_is_added_to_our_members() {
    let mut elder_test = ElderUnderTest::new(ELDER_SIZE - 1);
    let new_info = elder_test.new_elders_info_with_candidate();
    elder_test.accumulate_online(elder_test.candidate);
    elder_test.accumulate_start_dkg(&new_info);

    assert!(!elder_test.has_unpolled_observations());
    assert!(elder_test.is_candidate_member());
    assert!(!elder_test.is_candidate_elder());
}

#[test]
fn when_accumulate_online_and_start_dkg_and_section_info_then_node_is_added_to_our_elders() {
    let mut elder_test = ElderUnderTest::new(ELDER_SIZE - 1);
    let new_info = elder_test.new_elders_info_with_candidate();
    elder_test.accumulate_online(elder_test.candidate);
    elder_test.accumulate_start_dkg(&new_info);
    elder_test.accumulate_section_info(new_info);

    assert!(!elder_test.has_unpolled_observations());
    assert!(elder_test.is_candidate_member());
    assert!(elder_test.is_candidate_elder());
}

#[test]
fn when_accumulate_offline_then_node_is_removed_from_our_members() {
    let mut elder_test = ElderUnderTest::new(ELDER_SIZE - 1);
    let new_info = elder_test.new_elders_info_with_candidate();
    elder_test.accumulate_online(elder_test.candidate);
    elder_test.accumulate_start_dkg(&new_info);
    elder_test.accumulate_section_info(new_info);

    let new_info = elder_test.new_elders_info_without_candidate();
    elder_test.accumulate_offline(*elder_test.candidate.public_id());
    elder_test.accumulate_start_dkg(&new_info);

    assert!(!elder_test.has_unpolled_observations());
    assert!(!elder_test.is_candidate_member());
    assert!(elder_test.is_candidate_elder());
}

#[test]
fn when_accumulate_offline_and_start_dkg_and_section_info_then_node_is_removed_from_our_elders() {
    let mut elder_test = ElderUnderTest::new(ELDER_SIZE - 1);
    let new_info = elder_test.new_elders_info_with_candidate();
    elder_test.accumulate_online(elder_test.candidate);
    elder_test.accumulate_start_dkg(&new_info);
    elder_test.accumulate_section_info(new_info);

    let new_info = elder_test.new_elders_info_without_candidate();
    elder_test.accumulate_offline(*elder_test.candidate.public_id());
    elder_test.accumulate_start_dkg(&new_info);
    elder_test.accumulate_section_info(new_info);

    assert!(!elder_test.has_unpolled_observations());
    assert!(!elder_test.is_candidate_member());
    assert!(!elder_test.is_candidate_elder());
}

#[test]
fn handle_bootstrap() {
    let elder_test = ElderUnderTest::new(ELDER_SIZE);
    let new_node = gen_node(200);
    let dst_name = *new_node.name();

    let response = elder_test.chain.handle_bootstrap_request(&dst_name);
    match response {
        routing::messages::BootstrapResponse::Join { elders_info, .. } => {
            assert_eq!(&elders_info, elder_test.chain.our_elders())
        }
        routing::messages::BootstrapResponse::Rebootstrap(_) => {
            panic!("Unexpected Rebootstrap response")
        }
    }
}

#[test]
fn a_section_info_whose_key_is_bound_to_another_version_is_rejected() {
    let mut elder_test = ElderUnderTest::new(ELDER_SIZE - 1);
    let new_info = elder_test.new_elders_info_with_candidate();

    // The key claims a version other than the offered elder set's.
    let key_info = SectionKeyInfo::new(99, *elder_test.chain.our_prefix(), vec![0u8; 48]);
    let err = elder_test
        .chain
        .handle_section_info(new_info.new_elders_info, key_info, vec![0u8; 96])
        .unwrap_err();
    assert_eq!(err, RoutingError::InvalidMessage);
}

#[test]
fn offline_and_promote_step_the_elder_set_and_chain_by_one_version() {
    let mut elder_test = ElderUnderTest::new(ELDER_SIZE);

    let orig_version = elder_test.chain.our_elders().version();
    let orig_tip = elder_test.chain.proof_chain.last_key_info().version();

    let adult = gen_node(103);
    elder_test.accumulate_online(adult);

    let dropped_id = *elder_test.chain.our_elders().member_nodes()[1].public_id();
    elder_test.perform_offline_and_promote(&dropped_id, adult);

    // The dropped identity left the elder set, the promoted one entered it.
    assert!(!elder_test.chain.is_peer_our_elder(&dropped_id));
    assert!(elder_test.chain.is_peer_our_elder(adult.public_id()));

    // Both the elder set and the proof chain tip moved by exactly one
    // version.
    assert_eq!(elder_test.chain.our_elders().version(), orig_version + 1);
    assert_eq!(
        elder_test.chain.proof_chain.last_key_info().version(),
        orig_tip + 1
    );
}

#[test]
fn send_genesis_update() {
    let mut elder_test = ElderUnderTest::new(ELDER_SIZE);

    let orig_elders_version = elder_test.chain.our_elders().version();

    let adult0 = gen_node(101);
    let adult1 = gen_node(102);

    elder_test.accumulate_online(adult0);
    elder_test.accumulate_online(adult1);

    // Remove one existing elder and promote an adult to take its place.
    // This increments the section version.
    let dropped_id = *elder_test.chain.our_elders().member_nodes()[1].public_id();
    elder_test.perform_offline_and_promote(&dropped_id, adult0);

    // Create the genesis updates and check the proof for the adult contains
    // the version the adult is at.
    let mut messages = elder_test.chain.create_genesis_updates();
    assert_eq!(messages.len(), 1);
    let message = messages.remove(0);
    assert_eq!(message.0, adult1);

    let proof = &message.1.proof;
    assert!(verify_proof_chain_contains(proof, orig_elders_version));

    // Receive the member knowledge from the adult.
    elder_test.chain.handle_member_knowledge(
        adult1,
        MemberKnowledge {
            elders_version: elder_test.chain.our_elders().version(),
            parsec_version: 0,
        },
    );

    // Create another genesis update and check the proof contains the
    // updated version and does not contain the previous version.
    let mut messages = elder_test.chain.create_genesis_updates();
    assert_eq!(messages.len(), 1);
    let message = messages.remove(0);
    let proof = &message.1.proof;
    assert!(verify_proof_chain_contains(
        proof,
        elder_test.chain.our_elders().version()
    ));
    assert!(verify_proof_chain_does_not_contain(
        proof,
        orig_elders_version
    ));
}
