//! Wire encoding, naming, configuration and ages.

use routing::config::NetworkParams;
use routing::elders_info::{elders_info_for_test, EldersInfo};
use routing::error::RoutingError;
use routing::get_group_key::GetGroupKey;
use routing::id::{FullId, P2pNode, PublicId};
use routing::member_info::{AgeCounter, MIN_AGE};
use routing::xor_name::{Prefix, XorName};
use routing::{ELDER_SIZE, SAFE_SECTION_SIZE};

fn make_name(seed: u8) -> XorName {
    let mut bytes = [0u8; 32];
    bytes[0] = seed;
    bytes[15] = seed.wrapping_add(7);
    XorName(bytes)
}

#[test]
fn get_group_key_serialisation() {
    let obj_before = GetGroupKey { target_id: make_name(0xAB) };

    let encoded = obj_before.encode();
    let obj_after = GetGroupKey::decode(&encoded).unwrap();

    assert_eq!(obj_before, obj_after);
}

#[test]
fn get_group_key_decode_rejects_malformed_bytes() {
    let obj = GetGroupKey { target_id: make_name(3) };
    let mut encoded = obj.encode();

    // Wrong length.
    encoded.push(0);
    assert_eq!(
        GetGroupKey::decode(&encoded),
        Err(RoutingError::InvalidMessage)
    );
    encoded.pop();

    // Wrong marker.
    let mut bad_marker = encoded.clone();
    bad_marker[0] = 0x00;
    assert_eq!(
        GetGroupKey::decode(&bad_marker),
        Err(RoutingError::InvalidMessage)
    );

    // Wrong tag.
    let mut bad_tag = encoded.clone();
    bad_tag[2] ^= 0x01;
    assert_eq!(
        GetGroupKey::decode(&bad_tag),
        Err(RoutingError::InvalidMessage)
    );
}

#[test]
fn prefix_matching_goes_by_the_high_order_bits() {
    let base = make_name(0b1011_0000);
    let prefix = Prefix::new(4, &base);

    assert!(prefix.matches(&make_name(0b1011_1111)));
    assert!(!prefix.matches(&make_name(0b1010_0000)));

    // A zero-bit prefix matches everything.
    let whole = Prefix::new(0, &make_name(7));
    assert!(whole.matches(&make_name(200)));
}

#[test]
fn substitution_forces_exactly_the_prefix_bits() {
    let prefix = Prefix::new(4, &make_name(0b1111_0000));
    let forced = prefix.substituted_in(&XorName([0u8; 32]));
    // The first four bits come from the prefix, the rest stay zero.
    assert_eq!(forced.0[0], 0b1111_0000);
    assert_eq!(forced.0[1], 0);
    assert!(prefix.matches(&forced));
}

#[test]
fn generated_identities_are_fresh_and_ranged() {
    let a = FullId::gen();
    let b = FullId::gen();
    assert_ne!(a.public_id().name(), b.public_id().name());

    let prefix = Prefix::new(6, &make_name(0b1010_1000));
    let ranged = FullId::within_range(&prefix);
    assert!(prefix.matches(&ranged.public_id().name));
}

#[test]
fn network_params_fall_back_to_the_hard_coded_defaults() {
    let defaults = NetworkParams::default();
    assert_eq!(defaults.elder_size, ELDER_SIZE);
    assert_eq!(defaults.safe_section_size, SAFE_SECTION_SIZE);

    let overridden = NetworkParams::with_overrides(Some(5), None);
    assert_eq!(overridden.elder_size, 5);
    assert_eq!(overridden.safe_section_size, SAFE_SECTION_SIZE);
}

#[test]
fn age_starts_at_the_minimum_and_only_grows() {
    let young = AgeCounter::from_age(0);
    assert_eq!(young.age(), MIN_AGE);

    let mut counter = AgeCounter::from_age(MIN_AGE);
    counter.increment();
    assert_eq!(counter.age(), MIN_AGE + 1);
}

#[test]
fn an_elder_set_at_the_largest_version_cannot_be_succeeded() {
    let prefix = Prefix::new(0, &make_name(0));
    let node = P2pNode::new(PublicId { name: make_name(1) }, 1);
    let prev = elders_info_for_test(vec![node], prefix, u64::MAX).unwrap();

    let successor = EldersInfo::new(vec![node], prefix, Some(&prev));
    assert_eq!(successor, Err(RoutingError::InvalidElderVersion));
}

#[test]
fn elder_sets_reject_empty_and_repeating_member_lists() {
    let prefix = Prefix::new(0, &make_name(0));
    assert_eq!(
        elders_info_for_test(Vec::new(), prefix, 0),
        Err(RoutingError::InvalidElderSet)
    );

    let node = P2pNode::new(PublicId { name: make_name(1) }, 1);
    let twin = P2pNode::new(PublicId { name: make_name(1) }, 2);
    assert_eq!(
        elders_info_for_test(vec![node, twin], prefix, 0),
        Err(RoutingError::InvalidElderSet)
    );
}
