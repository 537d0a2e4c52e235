//! Phases, snapshots, errors and attach points.

use engate::point::default_true_bool;
use engate::{
    AttachError, AttachJobError, EngateSpec, Live, Phase, Snapshot, Spawned, Subscribed, Synced,
    TypePath,
};

fn path(crate_name: &str, path: &str) -> TypePath {
    TypePath { crate_name: crate_name.into(), path: path.into() }
}

fn spec() -> EngateSpec {
    EngateSpec {
        name: "mado-tear-pane".into(),
        producer: path("tear-client", "tear_client::PaneProducer"),
        consumer: path("mado", "mado::terminal::Terminal"),
        history_required: true,
        attestation_fixture: Some("fixtures/mado-tear.engate.json".into()),
    }
}

#[test]
fn phase_names_round_trip() {
    assert_eq!(Spawned::name(), "Spawned");
    assert_eq!(Subscribed::name(), "Subscribed");
    assert_eq!(Synced::name(), "Synced");
    assert_eq!(Live::name(), "Live");
}

#[test]
fn vec_u8_snapshot_size() {
    let v: Vec<u8> = vec![1, 2, 3, 4, 5];
    assert_eq!(<Vec<u8> as Snapshot>::size_bytes(&v), 5);
}

#[test]
fn snapshot_impl_for_string() {
    let s: String = "hello".into();
    assert_eq!(<String as Snapshot>::size_bytes(&s), 5);
}

#[test]
fn string_snapshot_size_counts_bytes() {
    let s: String = "h\u{e9}llo \u{2014}".into();
    assert_eq!(<String as Snapshot>::size_bytes(&s), 10);
    assert_eq!(<String as Snapshot>::size_bytes(&String::new()), 0);
}

#[test]
fn snapshot_default_size_bytes_is_zero() {
    struct EmptyMarker;
    impl Snapshot for EmptyMarker {}
    assert_eq!(<EmptyMarker as Snapshot>::size_bytes(&EmptyMarker), 0);
}

#[test]
fn attach_error_display() {
    let e = AttachError::SnapshotFailed("disk full".into());
    assert_eq!(e.to_string(), "snapshot failed: disk full");
}

#[test]
fn all_attach_error_variants_constructible_and_displayable() {
    let errs = [
        AttachError::SnapshotFailed("disk full".into()),
        AttachError::SubscribeFailed("permission".into()),
        AttachError::NoSuchEntity("pane-x".into()),
        AttachError::Transport("connection reset".into()),
    ];
    for e in errs {
        let s = e.to_string();
        assert!(!s.is_empty(), "Display non-empty for {e:?}");
    }
}

#[test]
fn attach_error_messages_are_exact() {
    assert_eq!(
        AttachError::SubscribeFailed("permission".into()).to_string(),
        "subscribe failed: permission"
    );
    assert_eq!(AttachError::NoSuchEntity("pane-x".into()).to_string(), "no such entity: pane-x");
    assert_eq!(
        AttachError::Transport("connection reset".into()).to_string(),
        "transport: connection reset"
    );
    assert_eq!(AttachError::Transport(String::new()).to_string(), "transport: ");
}

#[test]
fn attach_job_error_messages_are_exact() {
    let refused = AttachJobError::from(AttachError::NoSuchEntity("pane-x".into()));
    assert!(matches!(refused, AttachJobError::Attach(AttachError::NoSuchEntity(_))));
    assert_eq!(refused.to_string(), "engate attach failed: no such entity: pane-x");
    assert_eq!(
        AttachJobError::AlreadyConsumed.to_string(),
        "AttachJob is one-shot and has already executed"
    );
}

#[test]
fn engate_spec_clone_equals_original() {
    let s = EngateSpec {
        name: "n".into(),
        producer: TypePath { crate_name: "p".into(), path: "p::T".into() },
        consumer: TypePath { crate_name: "c".into(), path: "c::T".into() },
        history_required: false,
        attestation_fixture: None,
    };
    assert_eq!(s, s.clone());
}

#[test]
fn type_path_equality_per_field() {
    let a = TypePath { crate_name: "x".into(), path: "x::Y".into() };
    let b = TypePath { crate_name: "x".into(), path: "x::Y".into() };
    let c = TypePath { crate_name: "x".into(), path: "x::Z".into() };
    let d = TypePath { crate_name: "z".into(), path: "x::Y".into() };
    assert_eq!(a, b);
    assert_ne!(a, c);
    assert_ne!(a, d);
}

#[test]
fn engate_spec_equality_per_field() {
    assert_eq!(spec(), spec());
    assert_ne!(spec(), EngateSpec { name: "other".into(), ..spec() });
    assert_ne!(spec(), EngateSpec { producer: path("tear-client", "other"), ..spec() });
    assert_ne!(spec(), EngateSpec { consumer: path("other", "mado::terminal::Terminal"), ..spec() });
    assert_ne!(spec(), EngateSpec { history_required: false, ..spec() });
    assert_ne!(spec(), EngateSpec { attestation_fixture: None, ..spec() });
    assert_ne!(spec(), EngateSpec { attestation_fixture: Some("other".into()), ..spec() });
    assert_ne!(EngateSpec { attestation_fixture: None, ..spec() }, spec());
}

#[test]
fn history_is_required_by_default() {
    assert!(default_true_bool());
}
