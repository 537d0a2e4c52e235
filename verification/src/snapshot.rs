//! Snapshots of a producer's state.

use vstd::prelude::*;
use vstd::utf8::encode_utf8;

verus! {

/// What a consumer needs to reach the producer's state at attach time: a
/// screen, the last messages of a channel, the tail of a log.
pub trait Snapshot: Send + Sync + 'static {
    /// Approximate size in bytes. An implementation that says nothing else
    /// reports 0.
    fn size_bytes(&self) -> (n: usize)
        default_ensures
            n == 0,
    {
        0
    }
}

impl Snapshot for Vec<u8> {
    fn size_bytes(&self) -> (n: usize)
        ensures
            n == self@.len(),
    {
        self.len()
    }
}

impl Snapshot for String {
    fn size_bytes(&self) -> (n: usize)
        ensures
            n == encode_utf8(self@).len() as usize,
    {
        self.as_str().len()
    }
}

} // verus!
