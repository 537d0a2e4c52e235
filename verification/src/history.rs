//! The snapshot in flight from producer to consumer.

use drop_bomb::DropBomb;
use vstd::prelude::*;

use crate::bomb::{arm, bomb_is_defused, bomb_message};
use crate::snapshot::Snapshot;

verus! {

/// What a history panics with when it is dropped unused.
pub const UNREPLAYED: &'static str =
    "engate::History dropped without being consumed — pass it to Attach::replay()";

/// A snapshot on its way from the producer to the consumer.
///
/// It has one use: `Attach::replay`, which moves the snapshot into the
/// consumer. Dropping it instead would leave the consumer without the
/// producer's past, so it holds a bomb that panics on drop until
/// [`into_inner`](History::into_inner) defuses it.
#[must_use]
pub struct History<S: Snapshot> {
    snapshot: S,
    bomb: DropBomb,
}

impl<S: Snapshot> History<S> {
    /// The snapshot carried.
    pub closed spec fn snapshot(self) -> S {
        self.snapshot
    }

    /// The bomb that goes off when the history is dropped.
    pub closed spec fn bomb(self) -> DropBomb {
        self.bomb
    }

    /// Dropping the history panics with [`UNREPLAYED`].
    pub open spec fn armed(self) -> bool {
        &&& !bomb_is_defused(self.bomb())
        &&& bomb_message(self.bomb()) == UNREPLAYED@
    }

    /// A history is armed as long as it exists.
    #[verifier::type_invariant]
    spec fn stays_armed(self) -> bool {
        self.armed()
    }

    pub(crate) fn new(snapshot: S) -> (history: Self)
        ensures
            history.snapshot() == snapshot,
            history.armed(),
            !bomb_is_defused(history.bomb()),
            bomb_message(history.bomb()) == UNREPLAYED@,
    {
        History { snapshot, bomb: arm(UNREPLAYED) }
    }

    /// Move the snapshot out and defuse the bomb.
    pub fn into_inner(self) -> (snapshot: S)
        ensures
            snapshot == self.snapshot(),
            exists|bomb: &mut DropBomb|
                {
                    &&& *bomb == self.bomb()
                    &&& bomb_is_defused(*final(bomb))
                    &&& #[trigger] call_ensures(DropBomb::defuse, (bomb,), ())
                },
    {
        let History { snapshot, mut bomb } = self;
        bomb.defuse();
        snapshot
    }

    /// Approximate size of the snapshot in bytes, as the snapshot reports it.
    pub fn size_bytes(&self) -> (n: usize)
        ensures
            call_ensures(S::size_bytes, (&self.snapshot(),), n),
    {
        self.snapshot.size_bytes()
    }
}

/// An armed history holds a bomb that is not defused, and that panics with a
/// message telling where the history should have gone.
pub proof fn an_armed_history_panics_when_dropped<S: Snapshot>(history: History<S>)
    ensures
        history.armed() <==> {
            &&& !bomb_is_defused(history.bomb())
            &&& bomb_message(history.bomb())
                == "engate::History dropped without being consumed — pass it to Attach::replay()"@
        },
{
}

} // verus!
