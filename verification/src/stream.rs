//! A live stream that keeps account of what is taken from it.
//!
//! The fields of [`Stream`] are private to this module and every receive goes
//! through it, so an item cannot be taken unnoticed: it is in
//! [`taken`](Stream::taken) from then on.

use std::marker::PhantomData;
use std::sync::mpsc;

use vstd::prelude::*;

use crate::channel::{receive, receive_queued};
use crate::phase::{Live, Phase, Spawned, Subscribed, Synced};

verus! {

/// The live stream of an attach in phase `P`, if that phase has one.
#[verifier::reject_recursive_types(T)]
pub struct Stream<P: Phase, T> {
    rx: Option<mpsc::Receiver<T>>,
    registered: Ghost<Option<mpsc::Receiver<T>>>,
    taken: Ghost<Seq<T>>,
    misses: Ghost<nat>,
    _phase: PhantomData<P>,
}

/// The log of items taken, after one more look at the channel.
pub open spec fn logged<T>(taken: Seq<T>, received: Option<T>) -> Seq<T> {
    match received {
        Some(item) => taken.push(item),
        None => taken,
    }
}

impl<P: Phase, T> Stream<P, T> {
    /// The receiver is there exactly in the phases that have a stream.
    #[verifier::type_invariant]
    spec fn follows_phase(self) -> bool {
        self.rx is Some <==> P::has_stream()
    }

    /// A receiver is held.
    pub closed spec fn present(self) -> bool {
        self.rx is Some
    }

    /// The receiver as it was registered.
    pub closed spec fn receiver(self) -> mpsc::Receiver<T> {
        self.registered@->0
    }

    /// The receiver as it is now.
    pub closed spec fn rest(self) -> mpsc::Receiver<T> {
        self.rx->0
    }

    /// Every item taken from the channel since it was registered, in the order
    /// in which they were taken.
    pub closed spec fn taken(self) -> Seq<T> {
        self.taken@
    }

    /// How often the channel was polled with nothing queued.
    pub closed spec fn misses(self) -> nat {
        self.misses@
    }

    /// Nothing was done to the channel since it was registered.
    pub open spec fn untouched(self) -> bool {
        &&& self.present()
        &&& self.rest() == self.receiver()
        &&& self.taken() == Seq::<T>::empty()
        &&& self.misses() == 0
    }

    /// The same stream, with nothing done to the channel in between.
    pub open spec fn continues<Q: Phase>(self, earlier: Stream<Q, T>) -> bool {
        &&& self.present() == earlier.present()
        &&& self.receiver() == earlier.receiver()
        &&& self.rest() == earlier.rest()
        &&& self.taken() == earlier.taken()
        &&& self.misses() == earlier.misses()
    }
}

impl<T> Stream<Spawned, T> {
    /// No stream yet.
    pub closed spec fn absent() -> Self {
        Stream {
            rx: None,
            registered: Ghost(None),
            taken: Ghost(Seq::empty()),
            misses: Ghost(0),
            _phase: PhantomData,
        }
    }

    /// No receiver is held before there is a stream.
    pub(crate) proof fn absent_holds_none()
        ensures
            !Self::absent().present(),
    {
    }

    pub(crate) fn none() -> (stream: Self)
        ensures
            stream == Self::absent(),
            !stream.present(),
        no_unwind
    {
        Stream {
            rx: None,
            registered: Ghost(None),
            taken: Ghost(Seq::empty()),
            misses: Ghost(0),
            _phase: PhantomData,
        }
    }
}

impl<T> Stream<Subscribed, T> {
    /// The stream of a receiver that has just been registered.
    pub(crate) fn open(rx: mpsc::Receiver<T>) -> (stream: Self)
        ensures
            stream.receiver() == rx,
            stream.untouched(),
    {
        Stream {
            rx: Some(rx),
            registered: Ghost(Some(rx)),
            taken: Ghost(Seq::empty()),
            misses: Ghost(0),
            _phase: PhantomData,
        }
    }

    /// The stream in the next phase.
    pub(crate) fn sync(self) -> (next: Stream<Synced, T>)
        ensures
            next.continues(self),
    {
        proof {
            use_type_invariant(&self);
        }
        Stream {
            rx: self.rx,
            registered: self.registered,
            taken: self.taken,
            misses: self.misses,
            _phase: PhantomData,
        }
    }
}

impl<T> Stream<Synced, T> {
    /// The stream in the next phase.
    pub(crate) fn start(self) -> (next: Stream<Live, T>)
        ensures
            next.continues(self),
    {
        proof {
            use_type_invariant(&self);
        }
        Stream {
            rx: self.rx,
            registered: self.registered,
            taken: self.taken,
            misses: self.misses,
            _phase: PhantomData,
        }
    }
}

impl<T> Stream<Live, T> {
    /// The stream was asked for an item and, having none left and no sender,
    /// gave none.
    pub closed spec fn ended(self) -> bool {
        exists|after: Self| #[trigger] call_ensures(Self::next, (self,), (after, None))
    }

    /// A stream that gave no item when asked has ended.
    pub(crate) proof fn none_means_ended(self, after: Self)
        requires
            call_ensures(Self::next, (self,), (after, None)),
        ensures
            self.ended(),
    {
    }

    /// Take the next item, blocking, with one call of `recv`. `None` when the
    /// channel is closed and empty.
    pub(crate) fn next(self) -> (next: (Self, Option<T>))
        ensures
            next.0.receiver() == self.receiver(),
            next.0.taken() == logged(self.taken(), next.1),
            next.0.taken() == match next.1 {
                Some(item) => self.taken().push(item),
                None => self.taken(),
            },
            next.0.misses() == self.misses(),
            exists|rx: &mut mpsc::Receiver<T>, answer: Result<T, mpsc::RecvError>|
                {
                    &&& *rx == self.rest()
                    &&& *final(rx) == next.0.rest()
                    &&& #[trigger] call_ensures(receive::<T>, (rx,), answer)
                    &&& next.1 == answer.ok()
                },
    {
        proof {
            use_type_invariant(&self);
        }
        let mut rx = self.rx.unwrap();
        let received = receive(&mut rx).ok();
        let stream = Stream {
            rx: Some(rx),
            registered: self.registered,
            taken: Ghost(logged(self.taken@, received)),
            misses: self.misses,
            _phase: PhantomData,
        };
        (stream, received)
    }

    /// Take the next item if one is queued, with one call of `try_recv`.
    pub(crate) fn poll(&mut self) -> (received: Option<T>)
        ensures
            final(self).receiver() == old(self).receiver(),
            final(self).taken() == logged(old(self).taken(), received),
            final(self).taken() == match received {
                Some(item) => old(self).taken().push(item),
                None => old(self).taken(),
            },
            final(self).misses() == old(self).misses() + if received is None {
                1nat
            } else {
                0
            },
            exists|rx: &mut mpsc::Receiver<T>, answer: Result<T, mpsc::TryRecvError>|
                {
                    &&& *rx == old(self).rest()
                    &&& *final(rx) == final(self).rest()
                    &&& #[trigger] call_ensures(receive_queued::<T>, (rx,), answer)
                    &&& received == answer.ok()
                },
    {
        proof {
            use_type_invariant(&*self);
        }
        let received = poll_slot(&mut self.rx).unwrap().ok();
        self.taken = Ghost(logged(self.taken@, received));
        self.misses = Ghost(
            self.misses@ + if received is None {
                1nat
            } else {
                0
            },
        );
        received
    }
}

/// Nothing was taken from an untouched stream, which still has the receiver that
/// was registered.
pub proof fn an_untouched_stream_is_as_registered<P: Phase, T>(stream: Stream<P, T>)
    ensures
        stream.untouched() <==> {
            &&& stream.present()
            &&& stream.rest() == stream.receiver()
            &&& stream.taken() == Seq::<T>::empty()
            &&& stream.misses() == 0
        },
{
}

/// A stream that is carried from one phase to another keeps its receiver and what
/// was taken from it.
pub proof fn a_carried_stream_is_the_same<P: Phase, Q: Phase, T>(
    earlier: Stream<Q, T>,
    stream: Stream<P, T>,
)
    ensures
        stream.continues(earlier) <==> {
            &&& stream.present() == earlier.present()
            &&& stream.receiver() == earlier.receiver()
            &&& stream.rest() == earlier.rest()
            &&& stream.taken() == earlier.taken()
            &&& stream.misses() == earlier.misses()
        },
{
}

/// A stream has ended where `recv` failed on the receiver that it then had.
pub(crate) proof fn an_ended_stream_failed_to_receive<T>(stream: Stream<Live, T>)
    requires
        stream.ended(),
    ensures
        exists|rx: &mut mpsc::Receiver<T>, answer: Result<T, mpsc::RecvError>|
            {
                &&& *rx == stream.rest()
                &&& #[trigger] call_ensures(receive::<T>, (rx,), answer)
                &&& answer is Err
            },
{
    let after = choose|after: Stream<Live, T>| #[trigger]
        call_ensures(Stream::<Live, T>::next, (stream,), (after, None));
    assert(call_ensures(Stream::<Live, T>::next, (stream,), (after, None)));
}

/// One call of `try_recv` on the receiver in `slot`.
fn poll_slot<T>(slot: &mut Option<mpsc::Receiver<T>>) -> (answer: Option<
    Result<T, mpsc::TryRecvError>,
>)
    requires
        (*old(slot)) is Some,
    ensures
        (*final(slot)) is Some,
        exists|rx: &mut mpsc::Receiver<T>, received: Result<T, mpsc::TryRecvError>|
            {
                &&& *rx == (*old(slot))->0
                &&& *final(rx) == (*final(slot))->0
                &&& #[trigger] call_ensures(receive_queued::<T>, (rx,), received)
                &&& answer == Some(received)
            },
    no_unwind
{
    match slot {
        Some(rx) => Some(receive_queued(rx)),
        None => None,
    }
}

} // verus!
