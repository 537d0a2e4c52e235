//! Attestations: fingerprints of finished attaches, to be held against recorded
//! ones.

use vstd::prelude::*;
use vstd::std_specs::cmp::PartialEqSpec;
use vstd::utf8::{encode_utf8, encode_utf8_decode_utf8};

use crate::digest::{digest, to_hex};
use crate::digest;
use crate::error::labelled;

verus! {

/// The fingerprint of one attach.
///
/// The component hashes are there to tell where a drift comes from; the root is
/// what is compared.
#[derive(Debug)]
pub struct Attestation {
    /// BLAKE3 of the snapshot that bootstrapped the consumer.
    pub snapshot_hash: String,
    /// BLAKE3 of the live items that the consumer observed, concatenated.
    pub live_hash: String,
    /// BLAKE3 of the consumer's final state, as the consumer serializes it.
    pub observed_hash: String,
    /// BLAKE3 of the three hashes above, concatenated as text.
    pub root_hash: String,
    /// Size of the snapshot in bytes.
    pub snapshot_bytes: usize,
    /// Number of live items observed.
    pub live_item_count: usize,
}

impl Clone for Attestation {
    fn clone(&self) -> (copy: Self)
        ensures
            copy == *self,
    {
        Attestation {
            snapshot_hash: self.snapshot_hash.clone(),
            live_hash: self.live_hash.clone(),
            observed_hash: self.observed_hash.clone(),
            root_hash: self.root_hash.clone(),
            snapshot_bytes: self.snapshot_bytes,
            live_item_count: self.live_item_count,
        }
    }
}

/// Two attestations are equal when all their fields are.
impl PartialEq for Attestation {
    fn eq(&self, other: &Self) -> (equal: bool) {
        self.snapshot_hash == other.snapshot_hash && self.live_hash == other.live_hash
            && self.observed_hash == other.observed_hash && self.root_hash == other.root_hash
            && self.snapshot_bytes == other.snapshot_bytes && self.live_item_count
            == other.live_item_count
    }
}

impl vstd::std_specs::cmp::PartialEqSpecImpl for Attestation {
    open spec fn obeys_eq_spec() -> bool {
        true
    }

    open spec fn eq_spec(&self, other: &Self) -> bool {
        self.agrees(*other)
    }
}

impl Eq for Attestation {

}

/// Which part of an attestation drifted.
#[derive(Debug, PartialEq, Eq, Structural)]
pub enum DriftComponent {
    Snapshot,
    Live,
    Observed,
    Root,
}

impl Clone for DriftComponent {
    fn clone(&self) -> (copy: Self)
        ensures
            copy == *self,
    {
        match self {
            DriftComponent::Snapshot => DriftComponent::Snapshot,
            DriftComponent::Live => DriftComponent::Live,
            DriftComponent::Observed => DriftComponent::Observed,
            DriftComponent::Root => DriftComponent::Root,
        }
    }
}

/// An attestation that does not match the recorded one.
#[derive(Debug)]
pub struct AttestationDrift {
    /// The first component that differs.
    pub component: DriftComponent,
    /// What was recorded.
    pub expected: Box<Attestation>,
    /// What was found.
    pub actual: Box<Attestation>,
}

/// A recorded attestation that could not be written or read.
#[derive(Debug)]
pub enum AttestationError {
    Serialize(String),
    Deserialize(String),
}

/// The text whose digest is the root: the three component hashes, one after the
/// other.
pub fn root_input(snapshot_hash: &str, live_hash: &str, observed_hash: &str) -> (text: String)
    ensures
        text@ == snapshot_hash@ + live_hash@ + observed_hash@,
{
    let mut text = snapshot_hash.to_owned();
    text.append(live_hash);
    text.append(observed_hash);
    text
}

/// The root over three component hashes.
pub open spec fn root_text(
    snapshot_hash: Seq<char>,
    live_hash: Seq<char>,
    observed_hash: Seq<char>,
) -> Seq<char> {
    digest::hash_text(encode_utf8(snapshot_hash + live_hash + observed_hash))
}

impl Attestation {
    /// This is the attestation of an attach with that snapshot, those live
    /// bytes, that final state and that many live items.
    pub open spec fn attests(
        self,
        snapshot: Seq<u8>,
        live: Seq<u8>,
        observed: Seq<u8>,
        live_item_count: usize,
    ) -> bool {
        &&& self.snapshot_hash@ == digest::hash_text(snapshot)
        &&& self.live_hash@ == digest::hash_text(live)
        &&& self.observed_hash@ == digest::hash_text(observed)
        &&& self.root_hash@ == root_text(
            self.snapshot_hash@,
            self.live_hash@,
            self.observed_hash@,
        )
        &&& self.snapshot_bytes == snapshot.len()
        &&& self.live_item_count == live_item_count
    }

    /// All fields are equal.
    pub open spec fn agrees(self, other: Attestation) -> bool {
        &&& self.snapshot_hash@ == other.snapshot_hash@
        &&& self.live_hash@ == other.live_hash@
        &&& self.observed_hash@ == other.observed_hash@
        &&& self.root_hash@ == other.root_hash@
        &&& self.snapshot_bytes == other.snapshot_bytes
        &&& self.live_item_count == other.live_item_count
    }

    /// The roots match.
    pub open spec fn matches_root(self, expected: Attestation) -> bool {
        self.root_hash@ == expected.root_hash@
    }

    /// The first component that differs from `expected`; the root, where no
    /// component does.
    pub open spec fn first_drift(self, expected: Attestation) -> DriftComponent {
        if self.snapshot_hash@ != expected.snapshot_hash@ {
            DriftComponent::Snapshot
        } else if self.live_hash@ != expected.live_hash@ {
            DriftComponent::Live
        } else if self.observed_hash@ != expected.observed_hash@ {
            DriftComponent::Observed
        } else {
            DriftComponent::Root
        }
    }

    /// Attest an attach from the bytes of its snapshot, of its live items and of
    /// the consumer's final state.
    #[must_use]
    pub fn from_components(
        snapshot: &[u8],
        live: &[u8],
        observed: &[u8],
        live_item_count: usize,
    ) -> (attestation: Self)
        ensures
            attestation.attests(snapshot@, live@, observed@, live_item_count),
            attestation.snapshot_hash@ == digest::hex(digest::blake3_digest(snapshot@)@),
            attestation.live_hash@ == digest::hex(digest::blake3_digest(live@)@),
            attestation.observed_hash@ == digest::hex(digest::blake3_digest(observed@)@),
            attestation.root_hash@ == digest::hex(
                digest::blake3_digest(
                    encode_utf8(
                        attestation.snapshot_hash@ + attestation.live_hash@
                            + attestation.observed_hash@,
                    ),
                )@,
            ),
            attestation.snapshot_bytes == snapshot@.len(),
            attestation.live_item_count == live_item_count,
    {
        let snapshot_hash = to_hex(digest(snapshot));
        let live_hash = to_hex(digest(live));
        let observed_hash = to_hex(digest(observed));
        let joined = root_input(&snapshot_hash, &live_hash, &observed_hash);
        let root_hash = to_hex(digest(joined.as_str().as_bytes()));
        Attestation {
            snapshot_hash,
            live_hash,
            observed_hash,
            root_hash,
            snapshot_bytes: snapshot.len(),
            live_item_count,
        }
    }

    /// Hold this attestation against a recorded one. They match if the roots do;
    /// otherwise the drift names the component and carries both.
    pub fn verify_against(&self, expected: &Self) -> (verdict: Result<(), AttestationDrift>)
        ensures
            verdict is Ok <==> self.matches_root(*expected),
            verdict matches Err(drift) ==> {
                &&& drift.component == self.first_drift(*expected)
                &&& *drift.expected == *expected
                &&& *drift.actual == *self
            },
            verdict is Ok <==> self.root_hash@ == expected.root_hash@,
            verdict matches Err(drift) ==> {
                &&& drift.component is Snapshot <==> self.snapshot_hash@ != expected.snapshot_hash@
                &&& drift.component is Live <==> {
                    &&& self.snapshot_hash@ == expected.snapshot_hash@
                    &&& self.live_hash@ != expected.live_hash@
                }
                &&& drift.component is Observed <==> {
                    &&& self.snapshot_hash@ == expected.snapshot_hash@
                    &&& self.live_hash@ == expected.live_hash@
                    &&& self.observed_hash@ != expected.observed_hash@
                }
                &&& drift.component is Root <==> {
                    &&& self.snapshot_hash@ == expected.snapshot_hash@
                    &&& self.live_hash@ == expected.live_hash@
                    &&& self.observed_hash@ == expected.observed_hash@
                }
            },
    {
        if self.root_hash == expected.root_hash {
            Ok(())
        } else {
            Err(
                AttestationDrift {
                    component: drift_component(self, expected),
                    expected: Box::new(expected.clone()),
                    actual: Box::new(self.clone()),
                },
            )
        }
    }
}

/// The first component in which two attestations differ.
fn drift_component(actual: &Attestation, expected: &Attestation) -> (component: DriftComponent)
    ensures
        component == actual.first_drift(*expected),
{
    if !(actual.snapshot_hash == expected.snapshot_hash) {
        DriftComponent::Snapshot
    } else if !(actual.live_hash == expected.live_hash) {
        DriftComponent::Live
    } else if !(actual.observed_hash == expected.observed_hash) {
        DriftComponent::Observed
    } else {
        DriftComponent::Root
    }
}

impl DriftComponent {
    /// The component's name.
    pub open spec fn label(self) -> Seq<char> {
        match self {
            DriftComponent::Snapshot => "Snapshot"@,
            DriftComponent::Live => "Live"@,
            DriftComponent::Observed => "Observed"@,
            DriftComponent::Root => "Root"@,
        }
    }
}

impl AttestationDrift {
    /// The message shown for this drift.
    pub fn to_string(&self) -> (s: String)
        ensures
            s@ == "attestation drift in "@ + self.component.label(),
    {
        let component = match self.component {
            DriftComponent::Snapshot => "Snapshot",
            DriftComponent::Live => "Live",
            DriftComponent::Observed => "Observed",
            DriftComponent::Root => "Root",
        };
        labelled("attestation drift in ", component)
    }
}

impl AttestationError {
    /// The message shown for this error.
    pub open spec fn text(self) -> Seq<char> {
        match self {
            AttestationError::Serialize(why) => "serialize: "@ + why@,
            AttestationError::Deserialize(why) => "deserialize: "@ + why@,
        }
    }

    /// The message shown for this error: what failed, then the detail.
    pub fn to_string(&self) -> (s: String)
        ensures
            s@ == self.text(),
    {
        match self {
            AttestationError::Serialize(why) => labelled("serialize: ", why),
            AttestationError::Deserialize(why) => labelled("deserialize: ", why),
        }
    }
}

/// The text hashed for the root has one reading: hashes of equal width that give
/// the same text are the same, one by one.
pub proof fn root_input_is_unambiguous(
    snapshot_a: Seq<char>,
    live_a: Seq<char>,
    observed_a: Seq<char>,
    snapshot_b: Seq<char>,
    live_b: Seq<char>,
    observed_b: Seq<char>,
)
    requires
        snapshot_a.len() == snapshot_b.len(),
        live_a.len() == live_b.len(),
        snapshot_a + live_a + observed_a == snapshot_b + live_b + observed_b,
    ensures
        snapshot_a == snapshot_b,
        live_a == live_b,
        observed_a == observed_b,
{
    let text_a = snapshot_a + live_a + observed_a;
    let text_b = snapshot_b + live_b + observed_b;
    let m = snapshot_a.len() as int;
    let n = m + live_a.len();
    assert(snapshot_a =~= text_a.subrange(0, m));
    assert(snapshot_b =~= text_b.subrange(0, m));
    assert(live_a =~= text_a.subrange(m, n));
    assert(live_b =~= text_b.subrange(m, n));
    assert(observed_a =~= text_a.skip(n));
    assert(observed_b =~= text_b.skip(n));
}

/// An attestation holds the BLAKE3 digests of what the attach saw, and its root is
/// the BLAKE3 digest of these three, written one after the other in hexadecimal.
/// Each of the four texts is 64 characters wide.
pub proof fn root_is_the_digest_of_the_component_hashes(
    a: Attestation,
    snapshot: Seq<u8>,
    live: Seq<u8>,
    observed: Seq<u8>,
    live_item_count: usize,
)
    requires
        a.attests(snapshot, live, observed, live_item_count),
    ensures
        a.snapshot_hash@ == digest::hex(digest::blake3_digest(snapshot)@),
        a.live_hash@ == digest::hex(digest::blake3_digest(live)@),
        a.observed_hash@ == digest::hex(digest::blake3_digest(observed)@),
        a.root_hash@ == digest::hex(
            digest::blake3_digest(
                encode_utf8(a.snapshot_hash@ + a.live_hash@ + a.observed_hash@),
            )@,
        ),
        a.snapshot_hash@.len() == 64,
        a.live_hash@.len() == 64,
        a.observed_hash@.len() == 64,
        a.root_hash@.len() == 64,
        a.snapshot_bytes == snapshot.len(),
        a.live_item_count == live_item_count,
{
}

/// The number of live items is recorded and not hashed: attestations of the same
/// bytes with different counts have the same hashes and differ in the count alone.
pub proof fn the_count_is_not_hashed(
    a: Attestation,
    b: Attestation,
    snapshot: Seq<u8>,
    live: Seq<u8>,
    observed: Seq<u8>,
    count_a: usize,
    count_b: usize,
)
    requires
        a.attests(snapshot, live, observed, count_a),
        b.attests(snapshot, live, observed, count_b),
    ensures
        a.snapshot_hash@ == b.snapshot_hash@,
        a.live_hash@ == b.live_hash@,
        a.observed_hash@ == b.observed_hash@,
        a.root_hash@ == b.root_hash@,
        a.snapshot_bytes == b.snapshot_bytes,
        a.live_item_count == count_a,
        b.live_item_count == count_b,
        a.agrees(b) <==> count_a == count_b,
{
}

/// The component named is the first that differs, in the order snapshot, live,
/// observed: whatever else differs, a different snapshot hash is named, and a
/// later component only where all earlier ones are equal.
pub proof fn drift_names_the_first_component_that_differs(
    actual: Attestation,
    expected: Attestation,
)
    ensures
        actual.snapshot_hash@ != expected.snapshot_hash@ <==> actual.first_drift(expected)
            is Snapshot,
        actual.first_drift(expected) is Live <==> {
            &&& actual.snapshot_hash@ == expected.snapshot_hash@
            &&& actual.live_hash@ != expected.live_hash@
        },
        actual.first_drift(expected) is Observed <==> {
            &&& actual.snapshot_hash@ == expected.snapshot_hash@
            &&& actual.live_hash@ == expected.live_hash@
            &&& actual.observed_hash@ != expected.observed_hash@
        },
        actual.first_drift(expected) is Root <==> {
            &&& actual.snapshot_hash@ == expected.snapshot_hash@
            &&& actual.live_hash@ == expected.live_hash@
            &&& actual.observed_hash@ == expected.observed_hash@
        },
{
}

/// The order in which two attestations are held against each other makes no
/// difference to whether they match, nor to the component that is named.
pub proof fn drift_is_symmetric(a: Attestation, b: Attestation)
    ensures
        a.matches_root(b) <==> b.matches_root(a),
        a.first_drift(b) == b.first_drift(a),
        a.matches_root(a),
{
}

/// Attestations match when their roots are equal, whatever their other fields
/// are, and are equal when all their fields are.
pub proof fn matching_is_by_root_and_equality_by_all_fields(a: Attestation, b: Attestation)
    ensures
        a.matches_root(b) <==> a.root_hash@ == b.root_hash@,
        a.agrees(b) <==> {
            &&& a.snapshot_hash@ == b.snapshot_hash@
            &&& a.live_hash@ == b.live_hash@
            &&& a.observed_hash@ == b.observed_hash@
            &&& a.root_hash@ == b.root_hash@
            &&& a.snapshot_bytes == b.snapshot_bytes
            &&& a.live_item_count == b.live_item_count
        },
        PartialEqSpec::eq_spec(&a, &b) <==> a.agrees(b),
{
}

/// A drift's message names its component, and an error's message says what failed
/// and why.
pub proof fn messages_say_what_happened(why: String)
    ensures
        DriftComponent::Snapshot.label() == "Snapshot"@,
        DriftComponent::Live.label() == "Live"@,
        DriftComponent::Observed.label() == "Observed"@,
        DriftComponent::Root.label() == "Root"@,
        AttestationError::Serialize(why).text() == "serialize: "@ + why@,
        AttestationError::Deserialize(why).text() == "deserialize: "@ + why@,
{
}

/// Two attaches that saw the same have the same attestation, and each verifies
/// against the other.
pub proof fn same_attach_same_attestation(
    a: Attestation,
    b: Attestation,
    snapshot: Seq<u8>,
    live: Seq<u8>,
    observed: Seq<u8>,
    live_item_count: usize,
)
    requires
        a.attests(snapshot, live, observed, live_item_count),
        b.attests(snapshot, live, observed, live_item_count),
    ensures
        a.agrees(b),
        a.matches_root(b),
        b.matches_root(a),
{
}

/// A drift between two attestations names a component, never the bare root, and
/// that component's bytes did differ.
pub proof fn drift_names_what_changed(
    actual: Attestation,
    snapshot: Seq<u8>,
    live: Seq<u8>,
    observed: Seq<u8>,
    live_item_count: usize,
    expected: Attestation,
    expected_snapshot: Seq<u8>,
    expected_live: Seq<u8>,
    expected_observed: Seq<u8>,
    expected_live_item_count: usize,
)
    requires
        actual.attests(snapshot, live, observed, live_item_count),
        expected.attests(
            expected_snapshot,
            expected_live,
            expected_observed,
            expected_live_item_count,
        ),
        !actual.matches_root(expected),
    ensures
        match actual.first_drift(expected) {
            DriftComponent::Snapshot => snapshot != expected_snapshot,
            DriftComponent::Live => live != expected_live,
            DriftComponent::Observed => observed != expected_observed,
            DriftComponent::Root => false,
        },
{
}

/// Any change in what an attach saw changes the root, short of a BLAKE3
/// collision: where the roots match, the components do, or two of the inputs
/// hashed on the way collide.
pub proof fn matching_roots_mean_matching_components(
    a: Attestation,
    snapshot_a: Seq<u8>,
    live_a: Seq<u8>,
    observed_a: Seq<u8>,
    live_item_count_a: usize,
    b: Attestation,
    snapshot_b: Seq<u8>,
    live_b: Seq<u8>,
    observed_b: Seq<u8>,
    live_item_count_b: usize,
)
    requires
        a.attests(snapshot_a, live_a, observed_a, live_item_count_a),
        b.attests(snapshot_b, live_b, observed_b, live_item_count_b),
        a.matches_root(b),
    ensures
        (snapshot_a == snapshot_b && live_a == live_b && observed_a == observed_b)
            || digest::collide(snapshot_a, snapshot_b) || digest::collide(live_a, live_b)
            || digest::collide(observed_a, observed_b) || digest::collide(
            encode_utf8(a.snapshot_hash@ + a.live_hash@ + a.observed_hash@),
            encode_utf8(b.snapshot_hash@ + b.live_hash@ + b.observed_hash@),
        ),
{
    let text_a = a.snapshot_hash@ + a.live_hash@ + a.observed_hash@;
    let text_b = b.snapshot_hash@ + b.live_hash@ + b.observed_hash@;
    digest::hash_text_tells_inputs_apart(encode_utf8(text_a), encode_utf8(text_b));
    if encode_utf8(text_a) == encode_utf8(text_b) {
        encode_utf8_decode_utf8(text_a);
        encode_utf8_decode_utf8(text_b);
        digest::hash_text_has_fixed_width(snapshot_a);
        digest::hash_text_has_fixed_width(snapshot_b);
        digest::hash_text_has_fixed_width(live_a);
        digest::hash_text_has_fixed_width(live_b);
        root_input_is_unambiguous(
            a.snapshot_hash@,
            a.live_hash@,
            a.observed_hash@,
            b.snapshot_hash@,
            b.live_hash@,
            b.observed_hash@,
        );
        digest::hash_text_tells_inputs_apart(snapshot_a, snapshot_b);
        digest::hash_text_tells_inputs_apart(live_a, live_b);
        digest::hash_text_tells_inputs_apart(observed_a, observed_b);
    }
}

} // verus!
