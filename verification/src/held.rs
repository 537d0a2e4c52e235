//! The producer's end of an attach, phase by phase.
//!
//! A [`Held`] source can be asked in the first phase and in no other: asking
//! takes it to the next phase, and from there on it can only be carried along.
//! What was asked of it stays as it is until the attach is gone.

use std::marker::PhantomData;

use vstd::prelude::*;

use crate::error::AttachError;
use crate::peer::Producer;
use crate::phase::{Live, Phase, Spawned, Subscribed, Synced};
use crate::source::Source;
use crate::stream::Stream;

verus! {

/// The source of an attach in phase `Ph`.
#[verifier::reject_recursive_types(P)]
pub struct Held<Ph: Phase, P: Producer> {
    source: Source<P>,
    _phase: PhantomData<Ph>,
}

impl<Ph: Phase, P: Producer> Held<Ph, P> {
    /// The source held.
    pub closed spec fn source(self) -> Source<P> {
        self.source
    }
}

impl<P: Producer> Held<Spawned, P> {
    /// A source that was not asked.
    pub closed spec fn fresh(producer: P) -> Self {
        Held { source: Source::unasked(producer), _phase: PhantomData }
    }

    /// What a fresh source is.
    pub(crate) proof fn fresh_is_unasked(producer: P)
        ensures
            Self::fresh(producer).source() == Source::unasked(producer),
    {
    }

    pub(crate) fn new(producer: P) -> (held: Self)
        ensures
            held == Self::fresh(producer),
            held.source() == Source::unasked(producer),
        no_unwind
    {
        Held { source: Source::new(producer), _phase: PhantomData }
    }

    /// Ask the producer, as [`Source::ask`] does.
    pub(crate) fn ask(self) -> (asked: (
        Held<Subscribed, P>,
        Result<(Stream<Subscribed, P::Item>, P::Snap), AttachError>,
    ))
        ensures
            match asked.1 {
                Ok((stream, snapshot)) => {
                    &&& self.source().obtains(stream.receiver(), snapshot, asked.0.source())
                    &&& stream.untouched()
                },
                Err(error) => self.source().meets_refusal(error, asked.0.source()),
            },
    {
        let (source, answer) = self.source.ask();
        (Held { source, _phase: PhantomData }, answer)
    }
}

impl<P: Producer> Held<Subscribed, P> {
    /// The source in the next phase.
    pub(crate) fn sync(self) -> (next: Held<Synced, P>)
        ensures
            next.source() == self.source(),
        no_unwind
    {
        Held { source: self.source, _phase: PhantomData }
    }
}

impl<P: Producer> Held<Synced, P> {
    /// The source in the next phase.
    pub(crate) fn start(self) -> (next: Held<Live, P>)
        ensures
            next.source() == self.source(),
        no_unwind
    {
        Held { source: self.source, _phase: PhantomData }
    }
}

} // verus!
