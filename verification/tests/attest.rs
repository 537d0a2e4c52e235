//! Attestations.

use engate::attest::root_input;
use engate::{Attestation, AttestationError, DriftComponent};

#[test]
fn identical_inputs_yield_identical_root() {
    let a = Attestation::from_components(b"snap", b"live", b"obs", 4);
    let b = Attestation::from_components(b"snap", b"live", b"obs", 4);
    assert_eq!(a.root_hash, b.root_hash);
}

#[test]
fn differing_snapshot_flips_root() {
    let a = Attestation::from_components(b"snap-a", b"live", b"obs", 4);
    let b = Attestation::from_components(b"snap-b", b"live", b"obs", 4);
    assert_ne!(a.root_hash, b.root_hash);
    assert_ne!(a.snapshot_hash, b.snapshot_hash);
}

#[test]
fn verify_against_diagnoses_snapshot_drift() {
    let expected = Attestation::from_components(b"old-snap", b"live", b"obs", 1);
    let actual = Attestation::from_components(b"new-snap", b"live", b"obs", 1);
    let drift = actual.verify_against(&expected).unwrap_err();
    assert_eq!(drift.component, DriftComponent::Snapshot);
}

#[test]
fn verify_against_diagnoses_live_drift() {
    let expected = Attestation::from_components(b"snap", b"old-live", b"obs", 1);
    let actual = Attestation::from_components(b"snap", b"new-live", b"obs", 1);
    let drift = actual.verify_against(&expected).unwrap_err();
    assert_eq!(drift.component, DriftComponent::Live);
}

#[test]
fn matching_attestations_verify_ok() {
    let a = Attestation::from_components(b"snap", b"live", b"obs", 1);
    let b = Attestation::from_components(b"snap", b"live", b"obs", 1);
    assert!(a.verify_against(&b).is_ok());
}

#[test]
fn verify_against_diagnoses_observed_drift() {
    let expected = Attestation::from_components(b"snap", b"live", b"old-obs", 1);
    let actual = Attestation::from_components(b"snap", b"live", b"new-obs", 1);
    let drift = actual.verify_against(&expected).unwrap_err();
    assert_eq!(drift.component, DriftComponent::Observed);
    assert_eq!(*drift.expected, expected);
    assert_eq!(*drift.actual, actual);
    assert_eq!(drift.to_string(), "attestation drift in Observed");
}

#[test]
fn verify_against_falls_back_to_the_root() {
    let expected = Attestation::from_components(b"snap", b"live", b"obs", 1);
    let actual = Attestation { root_hash: "tampered".into(), ..expected.clone() };
    let drift = actual.verify_against(&expected).unwrap_err();
    assert_eq!(drift.component, DriftComponent::Root);
    assert_eq!(drift.to_string(), "attestation drift in Root");
}

#[test]
fn first_of_several_drifts_is_named() {
    let expected = Attestation::from_components(b"snap", b"live", b"obs", 1);
    let actual = Attestation::from_components(b"snap", b"evil", b"sob", 1);
    let drift = actual.verify_against(&expected).unwrap_err();
    assert_eq!(drift.component, DriftComponent::Live);
    let actual = Attestation::from_components(b"pans", b"evil", b"sob", 1);
    let drift = actual.verify_against(&expected).unwrap_err();
    assert_eq!(drift.component, DriftComponent::Snapshot);
    assert_eq!(drift.component.clone(), DriftComponent::Snapshot);
}

#[test]
fn only_the_root_decides() {
    let expected = Attestation::from_components(b"snap", b"live", b"obs", 1);
    let recount = Attestation::from_components(b"snap", b"live", b"obs", 2);
    assert!(recount.verify_against(&expected).is_ok());
    assert_ne!(recount, expected);
}

#[test]
fn hashes_are_lower_case_hex_of_blake3() {
    let a = Attestation::from_components(b"", b"abc", b"obs", 3);
    assert_eq!(
        a.snapshot_hash,
        "af1349b9f5f9a1a6a0404dea36dcc9499bcb25c9adc112b7cc9a93cae41f3262"
    );
    assert_eq!(
        a.live_hash,
        "6437b3ac38465133ffb63b75273a8db548c558465d79db03fd359c6cd5bd9d85"
    );
    assert_eq!(a.snapshot_bytes, 0);
    assert_eq!(a.live_item_count, 3);
    assert_eq!(Attestation::from_components(b"12345", b"", b"", 0).snapshot_bytes, 5);
}

#[test]
fn root_is_the_hash_of_the_joined_hashes() {
    let a = Attestation::from_components(b"snap", b"live", b"obs", 1);
    let joined = root_input(&a.snapshot_hash, &a.live_hash, &a.observed_hash);
    assert_eq!(joined.len(), 192);
    assert_eq!(a.root_hash, blake3::hash(joined.as_bytes()).to_hex().to_string());
    assert_eq!(root_input("ab", "", "c"), "abc");
}

#[test]
fn clone_equals_original_field_by_field() {
    let a = Attestation::from_components(b"snap", b"live", b"obs", 1);
    assert_eq!(a, a.clone());
    assert_ne!(a, Attestation { snapshot_hash: "x".into(), ..a.clone() });
    assert_ne!(a, Attestation { live_hash: "x".into(), ..a.clone() });
    assert_ne!(a, Attestation { observed_hash: "x".into(), ..a.clone() });
    assert_ne!(a, Attestation { root_hash: "x".into(), ..a.clone() });
    assert_ne!(a, Attestation { snapshot_bytes: 99, ..a.clone() });
    assert_ne!(a, Attestation { live_item_count: 99, ..a.clone() });
}

#[test]
fn attestation_error_messages_are_exact() {
    assert_eq!(AttestationError::Serialize("full".into()).to_string(), "serialize: full");
    assert_eq!(AttestationError::Deserialize("eof".into()).to_string(), "deserialize: eof");
}
