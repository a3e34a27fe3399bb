//! The joining node's bootstrap state machine.

use routing::bootstrapping::{BootstrapState, Bootstrapping, EXTRA_SPLIT_COUNT};
use routing::elders_info::elders_info_for_test;
use routing::error::RoutingError;
use routing::id::{FullId, P2pNode, PublicId};
use routing::messages::{BootstrapResponse, Message, Variant};
use routing::relocation::SignedRelocateDetails;
use routing::shared_state::{SectionKeyInfo, SectionProofSlice};
use routing::xor_name::{Prefix, XorName};
use threshold_crypto::SecretKeySet;

fn make_name(seed: u8) -> XorName {
    let mut bytes = [0u8; 32];
    bytes[0] = seed;
    XorName(bytes)
}

fn gen_node(seed: u8) -> P2pNode {
    P2pNode::new(PublicId { name: make_name(seed) }, seed as u64)
}

fn pk_bytes(sk_set: &SecretKeySet) -> Vec<u8> {
    sk_set.public_keys().public_key().to_bytes().to_vec()
}

fn key_set() -> SecretKeySet {
    let mut rng = rand::thread_rng();
    SecretKeySet::random(1, &mut rng)
}

// A section whose elders all sit under `prefix`, with the matching genesis
// key and a one-key proof chain.
fn section_under(
    prefix: Prefix,
    sk_set: &SecretKeySet,
) -> (routing::elders_info::EldersInfo, SectionKeyInfo, SectionProofSlice) {
    let nodes: Vec<P2pNode> = (1..=7u8)
        .map(|seed| {
            let name = prefix.substituted_in(&make_name(seed));
            P2pNode::new(PublicId { name }, seed as u64)
        })
        .collect();
    let elders_info = elders_info_for_test(nodes, prefix, 0).unwrap();
    let key = SectionKeyInfo::from_elders_info(&elders_info, pk_bytes(sk_set));
    let proof = SectionProofSlice::from_genesis(key.duplicate());
    (elders_info, key, proof)
}

#[test]
fn rebootstrap_clears_pending_requests_and_records_the_new_contacts() {
    let sk = key_set();
    let anchor = SectionKeyInfo::new(0, Prefix::new(0, &make_name(0)), pk_bytes(&sk));
    let mut stage = Bootstrapping::new(None, FullId::with_name(make_name(9)), anchor);

    stage.send_bootstrap_request(1);
    stage.send_bootstrap_request(2);
    assert_eq!(stage.state, BootstrapState::AwaitingResponse);

    let result = stage
        .handle_bootstrap_response(1, BootstrapResponse::Rebootstrap(vec![3, 4, 5]))
        .unwrap();
    assert!(result.is_none());
    assert_eq!(stage.state, BootstrapState::AwaitingResponse);

    let mut pending = stage.pending_requests.clone();
    pending.sort_unstable();
    assert_eq!(pending, vec![3, 4, 5]);
}

#[test]
fn a_stray_response_is_ignored_without_side_effects() {
    let sk = key_set();
    let anchor = SectionKeyInfo::new(0, Prefix::new(0, &make_name(0)), pk_bytes(&sk));
    let mut stage = Bootstrapping::new(None, FullId::with_name(make_name(9)), anchor);
    stage.send_bootstrap_request(1);

    let before_pending = stage.pending_requests.clone();
    let before_state = stage.state;

    let result = stage
        .handle_bootstrap_response(42, BootstrapResponse::Rebootstrap(vec![7, 8]))
        .unwrap();
    assert!(result.is_none());
    assert_eq!(stage.pending_requests, before_pending);
    assert_eq!(stage.state, before_state);
}

#[test]
fn a_verified_join_response_is_accepted() {
    let prefix = Prefix::new(0, &make_name(0));
    let sk = key_set();
    let (elders_info, key, proof) = section_under(prefix, &sk);
    let anchor = key.duplicate();

    let mut stage = Bootstrapping::new(None, FullId::with_name(make_name(9)), anchor);
    stage.send_bootstrap_request(1);

    let response = BootstrapResponse::Join { elders_info, section_key: key, proof };
    let params = stage
        .handle_bootstrap_response(1, response)
        .unwrap()
        .expect("a verified response joins");
    assert_eq!(stage.state, BootstrapState::Joined);
    assert_eq!(params.elders_info.version(), 0);
    assert!(params.relocate_payload.is_none());
}

#[test]
fn an_unverified_join_response_is_discarded() {
    let prefix = Prefix::new(0, &make_name(0));
    let sk = key_set();
    let (elders_info, key, proof) = section_under(prefix, &sk);

    // The joiner's anchor is a different key, which the offered proof chain
    // does not attest from.
    let other = key_set();
    let anchor = SectionKeyInfo::new(0, prefix, pk_bytes(&other));

    let mut stage = Bootstrapping::new(None, FullId::with_name(make_name(9)), anchor);
    stage.send_bootstrap_request(1);

    let response = BootstrapResponse::Join { elders_info, section_key: key, proof };
    let result = stage.handle_bootstrap_response(1, response).unwrap();
    assert!(result.is_none());
    assert_eq!(stage.state, BootstrapState::AwaitingResponse);
}

#[test]
fn a_relocating_node_regenerates_its_identity_into_the_extended_prefix() {
    // The destination section's prefix has 2 bits; after joining, the
    // node's identity must match a prefix of at least 2 + 3 bits rooted at
    // the destination.
    let prefix = Prefix::new(2, &make_name(0b1100_0000));
    let sk = key_set();
    let (elders_info, key, proof) = section_under(prefix, &sk);
    let anchor = key.duplicate();

    let destination = prefix.substituted_in(&make_name(0b0011_0101));
    let details = SignedRelocateDetails { destination, destination_key: pk_bytes(&sk) };

    // The node's own name deliberately does not match the destination.
    let own_name = make_name(0b0000_0001);
    let mut stage = Bootstrapping::new(Some(details), FullId::with_name(own_name), anchor);
    stage.send_bootstrap_request(1);

    let response = BootstrapResponse::Join { elders_info, section_key: key, proof };
    let params = stage
        .handle_bootstrap_response(1, response)
        .unwrap()
        .expect("a verified response joins");

    let payload = params.relocate_payload.expect("the ticket is consumed");
    assert_eq!(payload.old_public_id.name, own_name);

    let extended = Prefix::new(prefix.bit_count + EXTRA_SPLIT_COUNT, &destination);
    assert!(extended.matches(&stage.full_id.public_id.name));
}

#[test]
fn a_timeout_drops_the_attempt_and_reports_it_retryable() {
    let sk = key_set();
    let anchor = SectionKeyInfo::new(0, Prefix::new(0, &make_name(0)), pk_bytes(&sk));
    let mut stage = Bootstrapping::new(None, FullId::with_name(make_name(9)), anchor);
    stage.send_bootstrap_request(1);

    assert!(stage.handle_timeout());
    assert_eq!(stage.state, BootstrapState::AwaitingConnection);
    assert!(stage.pending_requests.is_empty());

    // With nothing pending there is nothing to retry.
    assert!(!stage.handle_timeout());
}

#[test]
fn process_message_verifies_only_bootstrap_responses() {
    let prefix = Prefix::new(0, &make_name(0));
    let sk = key_set();
    let (elders_info, key, proof) = section_under(prefix, &sk);

    let other = key_set();
    let anchor = SectionKeyInfo::new(0, prefix, pk_bytes(&other));
    let stage = Bootstrapping::new(None, FullId::with_name(make_name(9)), anchor);

    let untrusted = Message {
        variant: Variant::BootstrapResponse(BootstrapResponse::Join {
            elders_info,
            section_key: key,
            proof,
        }),
    };
    assert_eq!(
        stage.process_message(&untrusted),
        Err(RoutingError::UntrustedMessage)
    );

    let ping = Message { variant: Variant::Ping };
    assert_eq!(stage.process_message(&ping), Ok(()));
}
