//! What can go wrong while attaching.

use vstd::prelude::*;

verus! {

/// A failure of the attach itself. What goes wrong while a consumer applies an
/// item is that consumer's concern.
#[derive(Debug)]
pub enum AttachError {
    /// The producer could not capture its state.
    SnapshotFailed(String),
    /// The live stream could not be registered.
    SubscribeFailed(String),
    /// The producer knows no entity of the requested name.
    NoSuchEntity(String),
    /// Transport or I/O failure during the attach.
    Transport(String),
}

impl AttachError {
    /// The message shown for this error.
    pub open spec fn text(self) -> Seq<char> {
        match self {
            AttachError::SnapshotFailed(why) => "snapshot failed: "@ + why@,
            AttachError::SubscribeFailed(why) => "subscribe failed: "@ + why@,
            AttachError::NoSuchEntity(what) => "no such entity: "@ + what@,
            AttachError::Transport(why) => "transport: "@ + why@,
        }
    }

    /// The message shown for this error: what failed, then the detail.
    pub fn to_string(&self) -> (s: String)
        ensures
            s@ == self.text(),
    {
        match self {
            AttachError::SnapshotFailed(why) => labelled("snapshot failed: ", why),
            AttachError::SubscribeFailed(why) => labelled("subscribe failed: ", why),
            AttachError::NoSuchEntity(what) => labelled("no such entity: ", what),
            AttachError::Transport(why) => labelled("transport: ", why),
        }
    }
}

/// Every error is shown as what failed, followed by the detail, whatever that is.
pub proof fn errors_say_what_failed(detail: String)
    ensures
        AttachError::SnapshotFailed(detail).text() == "snapshot failed: "@ + detail@,
        AttachError::SubscribeFailed(detail).text() == "subscribe failed: "@ + detail@,
        AttachError::NoSuchEntity(detail).text() == "no such entity: "@ + detail@,
        AttachError::Transport(detail).text() == "transport: "@ + detail@,
{
}

/// No error is shown as an empty message.
pub proof fn every_error_has_a_message(e: AttachError)
    ensures
        e.text().len() > 0,
{
    reveal_strlit("snapshot failed: ");
    reveal_strlit("subscribe failed: ");
    reveal_strlit("no such entity: ");
    reveal_strlit("transport: ");
}

/// `label` followed by `detail`.
pub(crate) fn labelled(label: &str, detail: &str) -> (s: String)
    ensures
        s@ == label@ + detail@,
{
    let mut s = label.to_owned();
    s.append(detail);
    s
}

} // verus!
