//! The proof chain: extension, verification, trimming and quorum policy.

use routing::elders_info::quorum_count;
use routing::error::RoutingError;
use routing::shared_state::{
    section_proof_slice_for_test, verify_proof_chain_contains, verify_proof_chain_does_not_contain,
    SectionKeyInfo, TrustStatus,
};
use routing::xor_name::{Prefix, XorName};
use threshold_crypto::SecretKeySet;

fn make_name(seed: u8) -> XorName {
    let mut bytes = [0u8; 32];
    bytes[0] = seed;
    XorName(bytes)
}

fn pk_bytes(sk_set: &SecretKeySet) -> Vec<u8> {
    sk_set.public_keys().public_key().to_bytes().to_vec()
}

fn sign_with(sk_set: &SecretKeySet, msg: &[u8]) -> Vec<u8> {
    let shares: Vec<_> = (0..=sk_set.threshold())
        .map(|i| (i, sk_set.secret_key_share(i).sign(msg)))
        .collect();
    let combined = sk_set
        .public_keys()
        .combine_signatures(shares.iter().map(|(i, s)| (*i, s)))
        .unwrap();
    combined.to_bytes().to_vec()
}

fn key_set() -> SecretKeySet {
    let mut rng = rand::thread_rng();
    SecretKeySet::random(1, &mut rng)
}

#[test]
fn extend_accepts_only_a_validly_signed_next_version() {
    let prefix = Prefix::new(0, &make_name(0));
    let sk0 = key_set();
    let sk1 = key_set();
    let mut chain = section_proof_slice_for_test(0, prefix, pk_bytes(&sk0));

    let next = SectionKeyInfo::new(1, prefix, pk_bytes(&sk1));
    let sig = sign_with(&sk0, &next.signable_bytes());
    assert!(chain.extend(next, sig).is_ok());

    // A link at the wrong version is rejected.
    let sk2 = key_set();
    let wrong_version = SectionKeyInfo::new(3, prefix, pk_bytes(&sk2));
    let sig = sign_with(&sk1, &wrong_version.signable_bytes());
    assert_eq!(
        chain.extend(wrong_version, sig),
        Err(RoutingError::InvalidElderVersion)
    );

    // A link with a bad signature is rejected.
    let next2 = SectionKeyInfo::new(2, prefix, pk_bytes(&sk2));
    let bad_sig = sign_with(&sk0, &next2.signable_bytes());
    assert_eq!(
        chain.extend(next2, bad_sig),
        Err(RoutingError::FailedSignature)
    );
}

#[test]
fn chain_cannot_hold_two_keys_at_the_same_version() {
    let prefix = Prefix::new(0, &make_name(0));
    let sk0 = key_set();
    let sk1 = key_set();
    let mut chain = section_proof_slice_for_test(0, prefix, pk_bytes(&sk0));

    let first = SectionKeyInfo::new(1, prefix, pk_bytes(&sk1));
    let sig = sign_with(&sk0, &first.signable_bytes());
    assert!(chain.extend(first, sig).is_ok());

    // A second, different key at the already occupied version must be
    // rejected, even with a valid signature by the previous key set.
    let sk_other = key_set();
    let second = SectionKeyInfo::new(1, prefix, pk_bytes(&sk_other));
    let sig = sign_with(&sk0, &second.signable_bytes());
    assert_eq!(
        chain.extend(second, sig),
        Err(RoutingError::InvalidElderVersion)
    );
}

#[test]
fn verification_is_transitive_from_the_anchor() {
    let prefix = Prefix::new(0, &make_name(0));
    let sk0 = key_set();
    let sk1 = key_set();
    let sk2 = key_set();
    let mut chain = section_proof_slice_for_test(0, prefix, pk_bytes(&sk0));

    let a = SectionKeyInfo::new(1, prefix, pk_bytes(&sk1));
    let sig = sign_with(&sk0, &a.signable_bytes());
    chain.extend(a.duplicate(), sig).unwrap();

    let b = SectionKeyInfo::new(2, prefix, pk_bytes(&sk2));
    let sig = sign_with(&sk1, &b.signable_bytes());
    chain.extend(b.duplicate(), sig).unwrap();

    let genesis = SectionKeyInfo::new(0, prefix, pk_bytes(&sk0));
    // The tip is trusted directly from the genesis anchor, without the
    // intermediate key being supplied.
    assert_eq!(chain.verify(&b, &genesis), TrustStatus::Trusted);
    // It is also trusted from the intermediate key itself.
    assert_eq!(chain.verify(&b, &a), TrustStatus::Trusted);
}

#[test]
fn verification_fails_closed() {
    let prefix = Prefix::new(0, &make_name(0));
    let sk0 = key_set();
    let sk1 = key_set();
    let mut chain = section_proof_slice_for_test(5, prefix, pk_bytes(&sk0));

    let next = SectionKeyInfo::new(6, prefix, pk_bytes(&sk1));
    let sig = sign_with(&sk0, &next.signable_bytes());
    chain.extend(next.duplicate(), sig).unwrap();

    // An anchor the chain does not hold: invalid.
    let stranger = SectionKeyInfo::new(5, prefix, pk_bytes(&sk1));
    assert_eq!(chain.verify(&next, &stranger), TrustStatus::ProofInvalid);

    // A target older than the anchor: too old.
    let old_target = SectionKeyInfo::new(4, prefix, pk_bytes(&sk0));
    let anchor = SectionKeyInfo::new(5, prefix, pk_bytes(&sk0));
    assert_eq!(chain.verify(&old_target, &anchor), TrustStatus::ProofTooOld);

    // A tampered link: invalid.
    let mut tampered = chain.duplicate();
    let mut bad_block = tampered.blocks.remove(0);
    bad_block.sig[0] ^= 0xFF;
    tampered.blocks.insert(0, bad_block);
    assert_eq!(tampered.verify(&next, &anchor), TrustStatus::ProofInvalid);
}

#[test]
fn trimming_keeps_only_what_the_reader_needs() {
    let prefix = Prefix::new(0, &make_name(0));
    let sk0 = key_set();
    let sk1 = key_set();
    let mut chain = section_proof_slice_for_test(0, prefix, pk_bytes(&sk0));
    let next = SectionKeyInfo::new(1, prefix, pk_bytes(&sk1));
    let sig = sign_with(&sk0, &next.signable_bytes());
    chain.extend(next, sig).unwrap();

    let whole = chain.trimmed_from(0);
    assert!(verify_proof_chain_contains(&whole, 0));
    assert!(verify_proof_chain_contains(&whole, 1));

    let tail = chain.trimmed_from(1);
    assert!(verify_proof_chain_contains(&tail, 1));
    assert!(verify_proof_chain_does_not_contain(&tail, 0));

    // A version the chain does not hold yields the whole chain.
    let fallback = chain.trimmed_from(9);
    assert!(verify_proof_chain_contains(&fallback, 0));
    assert!(verify_proof_chain_contains(&fallback, 1));
}

#[test]
fn quorum_is_the_smallest_count_above_two_thirds() {
    assert_eq!(quorum_count(7), 5);
    assert_eq!(quorum_count(6), 5);
    assert_eq!(quorum_count(3), 3);
    assert_eq!(quorum_count(1), 1);
    assert_eq!(quorum_count(0), 1);
}
