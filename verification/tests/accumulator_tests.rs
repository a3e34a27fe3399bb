//! Vote accumulation: quorum, deduplication and order independence.

use routing::chain_accumulator::EventAccumulator;
use routing::elders_info::{elders_info_for_test, EldersInfo};
use routing::error::RoutingError;
use routing::id::{P2pNode, PublicId};
use routing::member_info::MIN_AGE;
use routing::network_event::{AccumulatingEvent, EventSigPayload, OnlinePayload};
use routing::shared_state::SectionKeyInfo;
use routing::xor_name::{Prefix, XorName};

fn make_name(seed: u8) -> XorName {
    let mut bytes = [0u8; 32];
    bytes[0] = seed;
    XorName(bytes)
}

fn gen_node(seed: u8) -> P2pNode {
    P2pNode::new(PublicId { name: make_name(seed) }, seed as u64)
}

fn seven_elders() -> EldersInfo {
    let nodes: Vec<P2pNode> = (1..=7).map(gen_node).collect();
    elders_info_for_test(nodes, Prefix::new(0, &make_name(0)), 0).unwrap()
}

fn online_event(seed: u8) -> AccumulatingEvent {
    AccumulatingEvent::Online(OnlinePayload {
        p2p_node: gen_node(seed),
        age: MIN_AGE,
        their_knowledge: None,
    })
}

#[test]
fn accumulation_fires_once_at_the_fifth_distinct_vote() {
    // 7 elders, quorum 5: four votes accumulate nothing, the fifth distinct
    // vote fires exactly once with a five-entry proof.
    let elders = seven_elders();
    let mut acc = EventAccumulator::new();
    let event = online_event(50);

    for i in 1..=4u8 {
        acc.vote(&elders, event.duplicate(), PublicId { name: make_name(i) }, None)
            .unwrap();
    }
    assert!(acc.try_accumulate(&elders).is_none());

    acc.vote(&elders, event.duplicate(), PublicId { name: make_name(5) }, None)
        .unwrap();
    let (fired, proof) = acc.try_accumulate(&elders).expect("quorum was reached");
    assert_eq!(fired, event);
    assert_eq!(proof.len(), 5);

    // Idempotent afterwards: the delivered fact never fires again, even
    // after further votes for it.
    assert!(acc.try_accumulate(&elders).is_none());
    acc.vote(&elders, event.duplicate(), PublicId { name: make_name(6) }, None)
        .unwrap();
    assert!(acc.try_accumulate(&elders).is_none());
}

#[test]
fn duplicate_vote_never_changes_the_proof_size() {
    let elders = seven_elders();
    let mut acc = EventAccumulator::new();
    let event = online_event(51);
    let voter = PublicId { name: make_name(1) };

    acc.vote(&elders, event.duplicate(), voter, None).unwrap();
    acc.vote(&elders, event.duplicate(), voter, None).unwrap();
    acc.vote(&elders, event.duplicate(), voter, None).unwrap();

    // Three more distinct votes: still short of quorum, because the
    // duplicates counted once.
    for i in 2..=4u8 {
        acc.vote(&elders, event.duplicate(), PublicId { name: make_name(i) }, None)
            .unwrap();
    }
    assert!(acc.try_accumulate(&elders).is_none());

    acc.vote(&elders, event.duplicate(), PublicId { name: make_name(5) }, None)
        .unwrap();
    let (_, proof) = acc.try_accumulate(&elders).expect("quorum was reached");
    assert_eq!(proof.len(), 5);
}

#[test]
fn foreign_votes_are_rejected() {
    let elders = seven_elders();
    let mut acc = EventAccumulator::new();
    let outsider = PublicId { name: make_name(99) };

    assert_eq!(
        acc.vote(&elders, online_event(52), outsider, None),
        Err(RoutingError::ForeignVote)
    );
    assert!(acc.try_accumulate(&elders).is_none());
}

#[test]
fn structural_facts_are_delivered_before_member_facts() {
    let elders = seven_elders();
    let mut acc = EventAccumulator::new();

    let member_fact = online_event(60);
    let new_elders = {
        let nodes: Vec<P2pNode> = (1..=7).map(gen_node).collect();
        elders_info_for_test(nodes, Prefix::new(0, &make_name(0)), 1).unwrap()
    };
    let key = SectionKeyInfo::from_elders_info(&new_elders, vec![7u8; 48]);
    let structural_fact = AccumulatingEvent::SectionInfo(new_elders, key);

    // Bring both facts to quorum; the member fact's votes arrive first.
    for i in 1..=5u8 {
        let voter = PublicId { name: make_name(i) };
        acc.vote(&elders, member_fact.duplicate(), voter, None).unwrap();
        let payload = EventSigPayload::new(vec![i], vec![i]);
        acc.vote(&elders, structural_fact.duplicate(), voter, Some(payload))
            .unwrap();
    }

    let (first, _) = acc.try_accumulate(&elders).expect("two facts are ready");
    assert_eq!(first, structural_fact);
    let (second, _) = acc.try_accumulate(&elders).expect("one fact is left");
    assert_eq!(second, member_fact);
    assert!(acc.try_accumulate(&elders).is_none());
}

#[test]
fn a_new_key_vote_without_its_signature_payload_is_rejected() {
    let elders = seven_elders();
    let mut acc = EventAccumulator::new();
    let new_elders = {
        let nodes: Vec<P2pNode> = (1..=7).map(gen_node).collect();
        elders_info_for_test(nodes, Prefix::new(0, &make_name(0)), 1).unwrap()
    };
    let key = SectionKeyInfo::from_elders_info(&new_elders, vec![7u8; 48]);
    let fact = AccumulatingEvent::SectionInfo(new_elders, key);

    let voter = PublicId { name: make_name(1) };
    assert_eq!(
        acc.vote(&elders, fact, voter, None),
        Err(RoutingError::InvalidMessage)
    );
}

#[test]
fn arrival_order_does_not_change_the_outcome() {
    let elders = seven_elders();
    let event = online_event(53);

    let forward: Vec<u8> = (1..=5).collect();
    let backward: Vec<u8> = (1..=5).rev().collect();

    let mut results = Vec::new();
    for order in [forward, backward] {
        let mut acc = EventAccumulator::new();
        for (n, seed) in order.iter().enumerate() {
            let voter = PublicId { name: make_name(*seed) };
            acc.vote(&elders, event.duplicate(), voter, None).unwrap();
            if n + 1 < 5 {
                assert!(acc.try_accumulate(&elders).is_none());
            }
        }
        let (fired, proof) = acc.try_accumulate(&elders).expect("quorum was reached");
        assert_eq!(fired, event);
        let mut voters: Vec<XorName> = proof.votes().iter().map(|(id, _)| id.name).collect();
        voters.sort_by(|a, b| a.0.cmp(&b.0));
        results.push(voters);
    }
    // The gathered voter sets are identical whatever the arrival order.
    assert_eq!(results[0], results[1]);
}
