//! Attach points, described declaratively.

use vstd::prelude::*;
use vstd::std_specs::cmp::PartialEqSpec;

verus! {

/// A crate and a type path in it. Two strings, because a closure graph needs
/// the crate's name and an import needs the path.
#[derive(Debug)]
pub struct TypePath {
    pub crate_name: String,
    pub path: String,
}

impl Clone for TypePath {
    fn clone(&self) -> (copy: Self)
        ensures
            copy == *self,
    {
        TypePath { crate_name: self.crate_name.clone(), path: self.path.clone() }
    }
}

/// The same crate and the same path in it.
pub open spec fn same_path(a: TypePath, b: TypePath) -> bool {
    &&& a.crate_name@ == b.crate_name@
    &&& a.path@ == b.path@
}

/// Two paths are equal when the crates and the paths are.
impl PartialEq for TypePath {
    fn eq(&self, other: &Self) -> (equal: bool) {
        self.crate_name == other.crate_name && self.path == other.path
    }
}

impl vstd::std_specs::cmp::PartialEqSpecImpl for TypePath {
    open spec fn obeys_eq_spec() -> bool {
        true
    }

    open spec fn eq_spec(&self, other: &Self) -> bool {
        same_path(*self, *other)
    }
}

/// One attach point: who is attached to whom. It describes; it builds nothing.
/// Tools list these and generate build outputs from them.
#[derive(Debug)]
pub struct EngateSpec {
    /// Stable identifier of the attach point.
    pub name: String,
    /// The producer's type.
    pub producer: TypePath,
    /// The consumer's type.
    pub consumer: TypePath,
    /// Whether history must be replayed. Left out, it is
    /// [`default_true_bool`].
    pub history_required: bool,
    /// Where the recorded attestation is kept, if there is one.
    pub attestation_fixture: Option<String>,
}

impl Clone for EngateSpec {
    fn clone(&self) -> (copy: Self)
        ensures
            copy == *self,
    {
        EngateSpec {
            name: self.name.clone(),
            producer: self.producer.clone(),
            consumer: self.consumer.clone(),
            history_required: self.history_required,
            attestation_fixture: self.attestation_fixture.clone(),
        }
    }
}

/// The same text, or none on either side.
pub open spec fn same_text(a: Option<String>, b: Option<String>) -> bool {
    match (a, b) {
        (Some(a), Some(b)) => a@ == b@,
        (None, None) => true,
        _ => false,
    }
}

fn equal_text(a: &Option<String>, b: &Option<String>) -> (equal: bool)
    ensures
        equal == same_text(*a, *b),
{
    match (a, b) {
        (Some(a), Some(b)) => *a == *b,
        (None, None) => true,
        _ => false,
    }
}

/// Two attach points are equal when all their fields are.
impl PartialEq for EngateSpec {
    fn eq(&self, other: &Self) -> (equal: bool) {
        self.name == other.name && self.producer == other.producer && self.consumer
            == other.consumer && self.history_required == other.history_required && equal_text(
            &self.attestation_fixture,
            &other.attestation_fixture,
        )
    }
}

impl vstd::std_specs::cmp::PartialEqSpecImpl for EngateSpec {
    open spec fn obeys_eq_spec() -> bool {
        true
    }

    open spec fn eq_spec(&self, other: &Self) -> bool {
        &&& self.name@ == other.name@
        &&& same_path(self.producer, other.producer)
        &&& same_path(self.consumer, other.consumer)
        &&& self.history_required == other.history_required
        &&& same_text(self.attestation_fixture, other.attestation_fixture)
    }
}

/// Paths are equal when the crate and the path in it are, and attach points when
/// every field is; a fixture equals another that is the same text, or absent too.
pub proof fn equality_is_by_every_field(a: EngateSpec, b: EngateSpec, p: TypePath, q: TypePath)
    ensures
        PartialEqSpec::eq_spec(&p, &q) <==> p.crate_name@ == q.crate_name@ && p.path@ == q.path@,
        PartialEqSpec::eq_spec(&a, &b) <==> {
            &&& a.name@ == b.name@
            &&& a.producer.crate_name@ == b.producer.crate_name@
            &&& a.producer.path@ == b.producer.path@
            &&& a.consumer.crate_name@ == b.consumer.crate_name@
            &&& a.consumer.path@ == b.consumer.path@
            &&& a.history_required == b.history_required
            &&& a.attestation_fixture is Some <==> b.attestation_fixture is Some
            &&& a.attestation_fixture is Some ==> a.attestation_fixture->0@
                == b.attestation_fixture->0@
        },
{
}

/// What an attach point that leaves `history_required` out gets: history is
/// required.
pub fn default_true_bool() -> (required: bool)
    ensures
        required,
{
    true
}

} // verus!
