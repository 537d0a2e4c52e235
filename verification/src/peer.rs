//! The two ends of an attach, as traits for users to implement.

use std::sync::mpsc;

use vstd::prelude::*;

use crate::error::AttachError;
use crate::snapshot::Snapshot;

verus! {

/// A source of live items and of snapshots of its state: a terminal pane, a
/// chat channel, a log stream.
pub trait Producer: Send + Sync + 'static {
    /// Items emitted on the live stream.
    type Item: Send + 'static;

    /// What a consumer needs to reach the current state without every past
    /// item.
    type Snap: Snapshot;

    /// Capture the current state. An item emitted after the live stream was
    /// registered is in the snapshot, on the stream, or in both: never in
    /// neither.
    fn snapshot(&self) -> Result<Self::Snap, AttachError>;

    /// Register a live subscriber. The producer pushes items into the channel;
    /// dropping the receiver unsubscribes.
    fn subscribe(&self) -> Result<mpsc::Receiver<Self::Item>, AttachError>;
}

/// A sink for a producer's snapshot and items. Its associated types mirror the
/// producer's, so only matching pairs can be attached.
///
/// `replays` and `consumes` say what an implementation does to its own state.
/// Contracts of this crate describe a consumer by these two relations alone. An
/// implementation that defines neither promises nothing of its state.
pub trait Consumer: Send + 'static {
    /// Items received from the live stream.
    type Item: Send + 'static;

    /// Snapshots accepted by `replay`.
    type Snap: Snapshot;

    /// `post` is a state that replaying `snapshot` into `self` may lead to.
    open spec fn replays(&self, snapshot: Self::Snap, post: &Self) -> bool {
        true
    }

    /// `post` is a state that applying `item` to `self` may lead to.
    open spec fn consumes(&self, item: Self::Item, post: &Self) -> bool {
        true
    }

    /// Bootstrap the local model from a snapshot. Called exactly once in an
    /// attach, before any `consume`.
    fn replay(&mut self, snapshot: Self::Snap)
        ensures
            old(self).replays(snapshot, final(self)),
    ;

    /// Apply one live item.
    fn consume(&mut self, item: Self::Item)
        ensures
            old(self).consumes(item, final(self)),
    ;
}

} // verus!
