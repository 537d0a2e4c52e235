//! The phases of an attach, as marker types.

use vstd::prelude::*;

use crate::sealed::Sealed;

verus! {

/// Phase of an attach. Marker only: it carries no data.
pub trait Phase: Sealed + Send + Sync + 'static {
    /// The phase's name, as text.
    spec fn label() -> Seq<char>;

    /// Whether an attach holds a live stream in this phase.
    spec fn has_stream() -> bool;

    /// Human-readable phase name.
    fn name() -> (s: &'static str)
        ensures
            s@ == Self::label(),
    ;
}

/// The producer has been named; no connection has been opened.
pub struct Spawned;

impl Sealed for Spawned {

}

impl Phase for Spawned {
    open spec fn label() -> Seq<char> {
        "Spawned"@
    }

    open spec fn has_stream() -> bool {
        false
    }

    fn name() -> (s: &'static str) {
        "Spawned"
    }
}

/// The live stream is registered; no history has been replayed.
pub struct Subscribed;

impl Sealed for Subscribed {

}

impl Phase for Subscribed {
    open spec fn label() -> Seq<char> {
        "Subscribed"@
    }

    open spec fn has_stream() -> bool {
        true
    }

    fn name() -> (s: &'static str) {
        "Subscribed"
    }
}

/// The snapshot has been replayed into the consumer. Live items may be queued;
/// none has been forwarded.
pub struct Synced;

impl Sealed for Synced {

}

impl Phase for Synced {
    open spec fn label() -> Seq<char> {
        "Synced"@
    }

    open spec fn has_stream() -> bool {
        true
    }

    fn name() -> (s: &'static str) {
        "Synced"
    }
}

/// Live items flow into the consumer. The only phase in which they do.
pub struct Live;

impl Sealed for Live {

}

impl Phase for Live {
    open spec fn label() -> Seq<char> {
        "Live"@
    }

    open spec fn has_stream() -> bool {
        true
    }

    fn name() -> (s: &'static str) {
        "Live"
    }
}

/// Each phase is called what its type is.
pub proof fn phases_are_called_by_their_names()
    ensures
        Spawned::label() == "Spawned"@,
        Subscribed::label() == "Subscribed"@,
        Synced::label() == "Synced"@,
        Live::label() == "Live"@,
{
}

/// No two phases share a name.
pub proof fn phase_labels_are_distinct()
    ensures
        Spawned::label() != Subscribed::label(),
        Spawned::label() != Synced::label(),
        Spawned::label() != Live::label(),
        Subscribed::label() != Synced::label(),
        Subscribed::label() != Live::label(),
        Synced::label() != Live::label(),
{
    reveal_strlit("Spawned");
    reveal_strlit("Subscribed");
    reveal_strlit("Synced");
    reveal_strlit("Live");
    assert(Spawned::label().len() == 7);
    assert(Subscribed::label().len() == 10);
    assert(Synced::label().len() == 6);
    assert(Live::label().len() == 4);
}

} // verus!
