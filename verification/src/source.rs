//! A producer with a log of what is asked of it.
//!
//! The producer is behind a [`Port`], so a source reaches it only by applying a
//! function to the port, and every application counts. The log has as many
//! entries as the port has uses, and each entry tells of a call that was made: no
//! call goes unlogged.

use std::sync::mpsc;

use vstd::prelude::*;

use crate::error::AttachError;
use crate::peer::Producer;
use crate::phase::Subscribed;
use crate::port::Port;
use crate::stream::Stream;

verus! {

/// A call of a producer, with its answer.
#[verifier::reject_recursive_types(P)]
pub enum Call<P: Producer> {
    Subscribe(Result<mpsc::Receiver<P::Item>, AttachError>),
    Snapshot(Result<P::Snap, AttachError>),
}

impl<P: Producer> Call<P> {
    /// `producer` was called so and gave that answer.
    pub open spec fn was_made(self, producer: P) -> bool {
        match self {
            Call::Subscribe(answer) => call_ensures(P::subscribe, (&producer,), answer),
            Call::Snapshot(answer) => call_ensures(P::snapshot, (&producer,), answer),
        }
    }
}

/// The producer's end of an attach.
#[verifier::reject_recursive_types(P)]
pub struct Source<P: Producer> {
    port: Port<P>,
    calls: Ghost<Seq<Call<P>>>,
}

impl<P: Producer> Source<P> {
    /// The port that the producer is behind.
    pub closed spec fn port(self) -> Port<P> {
        self.port
    }

    /// The producer.
    pub closed spec fn producer(self) -> P {
        self.port.value()
    }

    /// The calls logged, in order.
    pub closed spec fn calls(self) -> Seq<Call<P>> {
        self.calls@
    }

    /// Every logged call was made, with the answer that is logged, and the
    /// producer was used for nothing else.
    #[verifier::type_invariant]
    spec fn logs_what_happened(self) -> bool {
        &&& self.calls@.len() == self.port.uses()
        &&& forall|k: int|
            0 <= k < self.calls@.len() ==> (#[trigger] self.calls@[k]).was_made(
                self.port.value(),
            )
    }

    /// `producer`, with no call logged.
    pub closed spec fn unasked(producer: P) -> Self {
        Source { port: Port::unused(producer), calls: Ghost(Seq::empty()) }
    }

    /// A source that was not asked has an empty log.
    pub(crate) proof fn unasked_has_no_calls(producer: P)
        ensures
            Self::unasked(producer).producer() == producer,
            Self::unasked(producer).port() == Port::unused(producer),
            Self::unasked(producer).calls() == Seq::<Call<P>>::empty(),
    {
        Port::unused_port_holds_its_value(producer);
    }

    pub(crate) fn new(producer: P) -> (source: Self)
        ensures
            source == Self::unasked(producer),
            source.producer() == producer,
            source.calls() == Seq::<Call<P>>::empty(),
            source.port() == Port::unused(producer),
        no_unwind
    {
        Source { port: Port::new(producer), calls: Ghost(Seq::empty()) }
    }

    /// `answer` to the request for a snapshot was given to a source that had
    /// already been granted `receiver`, after what `self` had logged, and left it
    /// as `later`.
    pub closed spec fn captures_after(
        self,
        receiver: mpsc::Receiver<P::Item>,
        answer: Result<P::Snap, AttachError>,
        later: Self,
    ) -> bool {
        exists|registered: Self|
            {
                &&& registered.producer() == self.producer()
                &&& registered.calls() == self.calls().push(Call::Subscribe(Ok(receiver)))
                &&& #[trigger] call_ensures(Self::capture, (registered,), (later, answer))
            }
    }

    /// Between `self` and `later`, the producer was asked for a stream and gave
    /// `receiver`; with that granted, it was asked for a snapshot and gave
    /// `snapshot`.
    pub open spec fn obtains(
        self,
        receiver: mpsc::Receiver<P::Item>,
        snapshot: P::Snap,
        later: Self,
    ) -> bool {
        &&& later.producer() == self.producer()
        &&& later.calls() == self.calls().push(Call::Subscribe(Ok(receiver))).push(
            Call::Snapshot(Ok(snapshot)),
        )
        &&& Call::<P>::Subscribe(Ok(receiver)).was_made(self.producer())
        &&& Call::<P>::Snapshot(Ok(snapshot)).was_made(self.producer())
        &&& self.captures_after(receiver, Ok(snapshot), later)
        &&& later.port().uses() == later.calls().len()
        &&& exists|registered: Port<P>|
            {
                &&& #[trigger] call_ensures(
                    Port::<P>::apply,
                    (self.port(), P::subscribe),
                    (registered, Ok(receiver)),
                )
                &&& call_ensures(
                    Port::<P>::apply,
                    (registered, P::snapshot),
                    (later.port(), Ok(snapshot)),
                )
            }
    }

    /// Between `self` and `later`, the producer was asked for a stream and failed
    /// with `error`; or it gave one, was then asked for a snapshot, and failed
    /// with `error`.
    pub open spec fn meets_refusal(self, error: AttachError, later: Self) -> bool {
        &&& later.producer() == self.producer()
        &&& later.port().uses() == later.calls().len()
        &&& {
            ||| {
                &&& later.calls() == self.calls().push(Call::Subscribe(Err(error)))
                &&& Call::<P>::Subscribe(Err(error)).was_made(self.producer())
                &&& call_ensures(
                    Port::<P>::apply,
                    (self.port(), P::subscribe),
                    (later.port(), Err(error)),
                )
            }
            ||| exists|receiver: mpsc::Receiver<P::Item>|
                {
                    &&& later.calls() == self.calls().push(Call::Subscribe(Ok(receiver))).push(
                        Call::Snapshot(Err(error)),
                    )
                    &&& #[trigger] Call::<P>::Subscribe(Ok(receiver)).was_made(self.producer())
                    &&& Call::<P>::Snapshot(Err(error)).was_made(self.producer())
                    &&& self.captures_after(receiver, Err(error), later)
                    &&& exists|registered: Port<P>|
                        {
                            &&& #[trigger] call_ensures(
                                Port::<P>::apply,
                                (self.port(), P::subscribe),
                                (registered, Ok(receiver)),
                            )
                            &&& call_ensures(
                                Port::<P>::apply,
                                (registered, P::snapshot),
                                (later.port(), Err(error)),
                            )
                        }
                }
        }
    }

    /// Ask the producer for a live stream and, once it is registered, for a
    /// snapshot.
    pub fn ask(self) -> (asked: (
        Self,
        Result<(Stream<Subscribed, P::Item>, P::Snap), AttachError>,
    ))
        ensures
            match asked.1 {
                Ok((stream, snapshot)) => {
                    &&& self.obtains(stream.receiver(), snapshot, asked.0)
                    &&& stream.untouched()
                },
                Err(error) => self.meets_refusal(error, asked.0),
            },
            asked.0.port().uses() == asked.0.calls().len(),
            match asked.1 {
                Ok((stream, snapshot)) => exists|registered: Port<P>|
                    {
                        &&& #[trigger] call_ensures(
                            Port::<P>::apply,
                            (self.port(), P::subscribe),
                            (registered, Ok(stream.receiver())),
                        )
                        &&& call_ensures(
                            Port::<P>::apply,
                            (registered, P::snapshot),
                            (asked.0.port(), Ok(snapshot)),
                        )
                    },
                Err(error) => {
                    ||| call_ensures(
                        Port::<P>::apply,
                        (self.port(), P::subscribe),
                        (asked.0.port(), Err(error)),
                    )
                    ||| exists|registered: Port<P>, receiver: mpsc::Receiver<P::Item>|
                        {
                            &&& #[trigger] call_ensures(
                                Port::<P>::apply,
                                (self.port(), P::subscribe),
                                (registered, Ok(receiver)),
                            )
                            &&& call_ensures(
                                Port::<P>::apply,
                                (registered, P::snapshot),
                                (asked.0.port(), Err(error)),
                            )
                        }
                },
            },
    {
        let (source, registered) = self.register();
        match registered {
            Err(error) => (source, Err(error)),
            Ok(stream) => {
                let (source, captured) = source.capture();
                match captured {
                    Err(error) => (source, Err(error)),
                    Ok(snapshot) => (source, Ok((stream, snapshot))),
                }
            },
        }
    }

    /// Call `Producer::subscribe`, once.
    fn register(self) -> (registered: (Self, Result<Stream<Subscribed, P::Item>, AttachError>))
        ensures
            registered.0.producer() == self.producer(),
            registered.0.port().uses() == registered.0.calls().len(),
            match registered.1 {
                Ok(stream) => {
                    &&& call_ensures(
                        Port::<P>::apply,
                        (self.port(), P::subscribe),
                        (registered.0.port(), Ok(stream.receiver())),
                    )
                    &&& stream.untouched()
                },
                Err(error) => call_ensures(
                    Port::<P>::apply,
                    (self.port(), P::subscribe),
                    (registered.0.port(), Err(error)),
                ),
            },
            match registered.1 {
                Ok(stream) => {
                    let call = Call::<P>::Subscribe(Ok(stream.receiver()));
                    &&& call.was_made(self.producer())
                    &&& registered.0.calls() == self.calls().push(call)
                    &&& stream.untouched()
                },
                Err(error) => {
                    let call = Call::<P>::Subscribe(Err(error));
                    &&& call.was_made(self.producer())
                    &&& registered.0.calls() == self.calls().push(call)
                },
            },
    {
        proof {
            use_type_invariant(&self);
        }
        let (port, answer) = self.port.apply(P::subscribe);
        let source = Source {
            port,
            calls: Ghost(self.calls@.push(Call::Subscribe(answer))),
        };
        match answer {
            Ok(rx) => (source, Ok(Stream::open(rx))),
            Err(error) => (source, Err(error)),
        }
    }

    /// Call `Producer::snapshot`, once.
    fn capture(self) -> (captured: (Self, Result<P::Snap, AttachError>))
        ensures
            captured.0.producer() == self.producer(),
            captured.0.port().uses() == captured.0.calls().len(),
            call_ensures(
                Port::<P>::apply,
                (self.port(), P::snapshot),
                (captured.0.port(), captured.1),
            ),
            Call::<P>::Snapshot(captured.1).was_made(self.producer()),
            captured.0.calls() == self.calls().push(Call::Snapshot(captured.1)),
    {
        proof {
            use_type_invariant(&self);
        }
        let (port, answer) = self.port.apply(P::snapshot);
        let source = Source {
            port,
            calls: Ghost(self.calls@.push(Call::Snapshot(answer))),
        };
        (source, answer)
    }
}

/// Asking uses the producer twice: `subscribe` is called once, and after it was
/// granted `snapshot` is called once. The two calls are the two entries that the
/// log gains.
pub proof fn a_granted_request_is_two_calls<P: Producer>(
    source: Source<P>,
    receiver: mpsc::Receiver<P::Item>,
    snapshot: P::Snap,
    later: Source<P>,
)
    requires
        source.obtains(receiver, snapshot, later),
    ensures
        later.producer() == source.producer(),
        later.port().uses() == source.port().uses() + 2,
        later.port().uses() == later.calls().len(),
        later.calls() == source.calls() + seq![
            Call::Subscribe(Ok(receiver)),
            Call::Snapshot(Ok(snapshot)),
        ],
        exists|registered: Port<P>|
            {
                &&& #[trigger] call_ensures(
                    Port::<P>::apply,
                    (source.port(), P::subscribe),
                    (registered, Ok(receiver)),
                )
                &&& call_ensures(
                    Port::<P>::apply,
                    (registered, P::snapshot),
                    (later.port(), Ok(snapshot)),
                )
            },
        call_ensures(P::subscribe, (&source.producer(),), Ok(receiver)),
        call_ensures(P::snapshot, (&source.producer(),), Ok(snapshot)),
{
    let granted: Result<mpsc::Receiver<P::Item>, AttachError> = Ok(receiver);
    let captured: Result<P::Snap, AttachError> = Ok(snapshot);
    let registered = choose|registered: Port<P>|
        {
            &&& #[trigger] call_ensures(
                Port::<P>::apply,
                (source.port(), P::subscribe),
                (registered, granted),
            )
            &&& call_ensures(
                Port::<P>::apply,
                (registered, P::snapshot),
                (later.port(), captured),
            )
        };
    Port::applying_is_one_use(source.port(), P::subscribe, registered, granted);
    Port::applying_is_one_use(registered, P::snapshot, later.port(), captured);
    assert(later.calls() =~= source.calls() + seq![
        Call::Subscribe(granted),
        Call::Snapshot(captured),
    ]);
}

/// A refusal ends the asking: the producer is used once where `subscribe` fails,
/// and twice where `subscribe` was granted and `snapshot` fails. The error is the
/// one that the failing call gave, and the log gains those calls.
pub proof fn a_refused_request_ends_with_the_refusal<P: Producer>(
    source: Source<P>,
    error: AttachError,
    later: Source<P>,
)
    requires
        source.meets_refusal(error, later),
    ensures
        later.producer() == source.producer(),
        later.port().uses() == later.calls().len(),
        later.port().uses() == source.port().uses() + 1 || later.port().uses()
            == source.port().uses() + 2,
        later.port().uses() == source.port().uses() + 1 ==> {
            &&& later.calls() == source.calls().push(Call::Subscribe(Err(error)))
            &&& call_ensures(P::subscribe, (&source.producer(),), Err(error))
            &&& call_ensures(
                Port::<P>::apply,
                (source.port(), P::subscribe),
                (later.port(), Err(error)),
            )
        },
        later.port().uses() == source.port().uses() + 2 ==> {
            &&& call_ensures(P::snapshot, (&source.producer(),), Err(error))
            &&& exists|registered: Port<P>, receiver: mpsc::Receiver<P::Item>|
                {
                    &&& #[trigger] call_ensures(
                        Port::<P>::apply,
                        (source.port(), P::subscribe),
                        (registered, Ok(receiver)),
                    )
                    &&& call_ensures(
                        Port::<P>::apply,
                        (registered, P::snapshot),
                        (later.port(), Err(error)),
                    )
                    &&& later.calls() == source.calls() + seq![
                        Call::Subscribe(Ok(receiver)),
                        Call::Snapshot(Err(error)),
                    ]
                }
        },
{
    let failed: Result<P::Snap, AttachError> = Err(error);
    let refused: Result<mpsc::Receiver<P::Item>, AttachError> = Err(error);
    if later.calls() == source.calls().push(Call::Subscribe(refused)) {
        assert(later.calls().last() == Call::<P>::Subscribe(refused));
        assert(call_ensures(
            Port::<P>::apply,
            (source.port(), P::subscribe),
            (later.port(), refused),
        ));
        Port::applying_is_one_use(source.port(), P::subscribe, later.port(), refused);
    } else {
        let receiver = choose|receiver: mpsc::Receiver<P::Item>|
            {
                &&& later.calls() == source.calls().push(Call::Subscribe(Ok(receiver))).push(
                    Call::Snapshot(failed),
                )
                &&& #[trigger] Call::<P>::Subscribe(Ok(receiver)).was_made(source.producer())
                &&& Call::<P>::Snapshot(failed).was_made(source.producer())
                &&& exists|registered: Port<P>|
                    {
                        &&& #[trigger] call_ensures(
                            Port::<P>::apply,
                            (source.port(), P::subscribe),
                            (registered, Ok(receiver)),
                        )
                        &&& call_ensures(
                            Port::<P>::apply,
                            (registered, P::snapshot),
                            (later.port(), failed),
                        )
                    }
            };
        let granted: Result<mpsc::Receiver<P::Item>, AttachError> = Ok(receiver);
        let registered = choose|registered: Port<P>|
            {
                &&& #[trigger] call_ensures(
                    Port::<P>::apply,
                    (source.port(), P::subscribe),
                    (registered, granted),
                )
                &&& call_ensures(
                    Port::<P>::apply,
                    (registered, P::snapshot),
                    (later.port(), failed),
                )
            };
        Port::applying_is_one_use(source.port(), P::subscribe, registered, granted);
        Port::applying_is_one_use(registered, P::snapshot, later.port(), failed);
        assert(later.calls() =~= source.calls() + seq![
            Call::Subscribe(granted),
            Call::Snapshot(failed),
        ]);
    }
}

} // verus!
