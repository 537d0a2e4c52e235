//! The attach: one value that moves through the phases.

use std::marker::PhantomData;

use vstd::prelude::*;

use crate::error::AttachError;
use crate::bomb::{bomb_is_defused, bomb_message};
use crate::held::Held;
use crate::history::{History, UNREPLAYED};
use crate::lifecycle::{
    consumed_all, delivers, drains, feed, forward_next, forwards, forwards_all, misses, passes,
};
use crate::peer::{Consumer, Producer};
use crate::phase::{Live, Phase, Spawned, Subscribed, Synced};
use crate::port::Port;
use crate::source::{a_granted_request_is_two_calls, a_refused_request_ends_with_the_refusal};
use crate::source::{Call, Source};
use crate::stream::Stream;

verus! {

/// A producer and a consumer on their way to each other. `P` is the current
/// phase; each phase has only the methods that make sense in it.
#[verifier::reject_recursive_types(Prod)]
pub struct Attach<P: Phase, Prod: Producer, Cons: Consumer> {
    source: Held<P, Prod>,
    consumer: Cons,
    stream: Stream<P, Prod::Item>,
}

/// An attach that has not begun.
pub type AttachSpawned<Prod, Cons> = Attach<Spawned, Prod, Cons>;

impl<P: Phase, Prod: Producer, Cons: Consumer> Attach<P, Prod, Cons> {
    /// The producer's end, with the calls made of it.
    pub closed spec fn source(self) -> Source<Prod> {
        self.source.source()
    }

    /// The producer.
    pub open spec fn producer(self) -> Prod {
        self.source().producer()
    }

    /// The consumer's end.
    pub closed spec fn consumer(self) -> Cons {
        self.consumer
    }

    /// The live stream, with the items taken from it.
    pub closed spec fn stream(self) -> Stream<P, Prod::Item> {
        self.stream
    }
}

impl<Prod, Cons> Attach<Spawned, Prod, Cons> where
    Prod: Producer,
    Cons: Consumer<Item = Prod::Item, Snap = Prod::Snap>,
 {
    /// An attach of these two ends that has not begun.
    pub closed spec fn spawned(producer: Prod, consumer: Cons) -> Self {
        Attach { source: Held::fresh(producer), consumer, stream: Stream::absent() }
    }

    /// Bring the two ends together, with nothing done yet to either.
    pub(crate) fn begin(producer: Prod, consumer: Cons) -> (attach: Self)
        ensures
            attach == Self::spawned(producer, consumer),
            attach.producer() == producer,
            attach.source() == Source::unasked(producer),
            attach.source().port() == Port::unused(producer),
            attach.source().port().uses() == 0,
            attach.source().calls() == Seq::<Call<Prod>>::empty(),
            attach.consumer() == consumer,
            attach.stream() == Stream::<Spawned, Prod::Item>::absent(),
            !attach.stream().present(),
        no_unwind
    {
        proof {
            Source::unasked_has_no_calls(producer);
            Port::unused_port_holds_its_value(producer);
        }
        Attach { source: Held::new(producer), consumer, stream: Stream::none() }
    }

    /// `Spawned` to `Subscribed`. The producer is asked for a live stream first
    /// and, once that is registered, for a snapshot, so nothing that is emitted
    /// in between is lost. Nothing is taken from the stream. The history returned
    /// must go to [`replay`](Attach::replay).
    pub fn subscribe(self) -> (subscribed: Result<
        (Attach<Subscribed, Prod, Cons>, History<Prod::Snap>),
        AttachError,
    >)
        ensures
            match subscribed {
                Ok((next, history)) => {
                    &&& self.source().obtains(
                        next.stream().receiver(),
                        history.snapshot(),
                        next.source(),
                    )
                    &&& next.stream().untouched()
                    &&& next.consumer() == self.consumer()
                    &&& history.armed()
                },
                Err(error) => exists|asked: Source<Prod>| #[trigger]
                    self.source().meets_refusal(error, asked),
            },
            match subscribed {
                Ok((next, history)) => {
                    &&& next.producer() == self.producer()
                    &&& next.source().calls() == self.source().calls() + seq![
                        Call::Subscribe(Ok(next.stream().receiver())),
                        Call::Snapshot(Ok(history.snapshot())),
                    ]
                    &&& next.source().port().uses() == self.source().port().uses() + 2
                    &&& next.source().port().uses() == next.source().calls().len()
                    &&& next.stream().present()
                    &&& next.stream().rest() == next.stream().receiver()
                    &&& next.stream().taken() == Seq::<Prod::Item>::empty()
                    &&& next.stream().misses() == 0
                    &&& !bomb_is_defused(history.bomb())
                    &&& bomb_message(history.bomb()) == UNREPLAYED@
                },
                Err(error) => {
                    ||| call_ensures(Prod::subscribe, (&self.producer(),), Err(error))
                    ||| call_ensures(Prod::snapshot, (&self.producer(),), Err(error))
                },
            },
    {
        let (source, answer) = self.source.ask();
        proof {
            if answer is Ok {
                a_granted_request_is_two_calls(
                    self.source(),
                    answer->Ok_0.0.receiver(),
                    answer->Ok_0.1,
                    source.source(),
                );
            } else {
                assert(self.source().meets_refusal(answer->Err_0, source.source()));
                a_refused_request_ends_with_the_refusal(
                    self.source(),
                    answer->Err_0,
                    source.source(),
                );
            }
        }
        Self::settle(source, self.consumer, answer)
    }

    /// What becomes of the attach once the producer has given `answer`.
    pub(crate) fn settle(
        source: Held<Subscribed, Prod>,
        consumer: Cons,
        answer: Result<(Stream<Subscribed, Prod::Item>, Prod::Snap), AttachError>,
    ) -> (settled: Result<(Attach<Subscribed, Prod, Cons>, History<Prod::Snap>), AttachError>)
        ensures
            match answer {
                Ok((stream, snapshot)) => {
                    &&& settled matches Ok((next, history))
                    &&& next.source() == source.source()
                    &&& next.consumer() == consumer
                    &&& next.stream() == stream
                    &&& history.snapshot() == snapshot
                    &&& history.armed()
                },
                Err(error) => settled == Err::<
                    (Attach<Subscribed, Prod, Cons>, History<Prod::Snap>),
                    AttachError,
                >(error),
            },
    {
        match answer {
            Ok((stream, snapshot)) => Ok(
                (Attach { source, consumer, stream }, History::new(snapshot)),
            ),
            Err(error) => Err(error),
        }
    }
}

impl<Prod, Cons> Attach<Subscribed, Prod, Cons> where
    Prod: Producer,
    Cons: Consumer<Item = Prod::Item, Snap = Prod::Snap>,
 {
    /// `Subscribed` to `Synced`. Replays the snapshot into the consumer. The
    /// history is moved in and defused, so it is replayed exactly once. Nothing
    /// is asked of the producer or taken from the stream. Always succeeds.
    pub fn replay(self, history: History<Prod::Snap>) -> (synced: Result<
        Attach<Synced, Prod, Cons>,
        AttachError,
    >)
        ensures
            synced matches Ok(next) && {
                &&& next.source() == self.source()
                &&& self.consumer().replays(history.snapshot(), &next.consumer())
                &&& next.stream().continues(self.stream())
            },
            call_ensures(History::<Prod::Snap>::into_inner, (history,), history.snapshot()),
    {
        let Attach { source, mut consumer, stream } = self;
        consumer.replay(history.into_inner());
        Ok(Attach { source: source.sync(), consumer, stream: stream.sync() })
    }
}

impl<Prod, Cons> Attach<Synced, Prod, Cons> where
    Prod: Producer,
    Cons: Consumer<Item = Prod::Item, Snap = Prod::Snap>,
 {
    /// `Synced` to `Live`. Whatever was queued since the stream was registered
    /// can now be forwarded; nothing is taken from the stream yet.
    pub fn start_live(self) -> (next: Attach<Live, Prod, Cons>)
        ensures
            next.source() == self.source(),
            next.consumer() == self.consumer(),
            next.stream().continues(self.stream()),
    {
        let Attach { source, consumer, stream } = self;
        Attach { source: source.start(), consumer, stream: stream.start() }
    }
}

impl<Prod, Cons> Attach<Live, Prod, Cons> where
    Prod: Producer,
    Cons: Consumer<Item = Prod::Item, Snap = Prod::Snap>,
 {
    /// Forward live items to the consumer until the producer closes the stream,
    /// blocking in between. Every item taken from the stream is consumed before
    /// the next is taken. Returns the consumer.
    pub fn run(self) -> (end: Cons)
        ensures
            exists|items: Seq<Prod::Item>, last: Stream<Live, Prod::Item>| #[trigger]
                drains(self.stream(), self.consumer(), items, last, end),
            exists|items: Seq<Prod::Item>, last: Stream<Live, Prod::Item>|
                {
                    &&& last.receiver() == self.stream().receiver()
                    &&& last.taken() == self.stream().taken() + items
                    &&& last.ended() || items.len() >= u128::MAX
                    &&& consumed_all(self.consumer(), items, end)
                    &&& #[trigger] forwards_all(
                        self.stream(),
                        self.consumer(),
                        items,
                        last,
                        end,
                    )
                },
    {
        let Attach { source: _, consumer, stream } = self;
        let mut consumer = consumer;
        let mut stream = stream;
        let ghost mut items: Seq<Prod::Item> = Seq::empty();
        let mut room: u128 = u128::MAX;
        assert(stream.taken() =~= self.stream().taken() + items);
        while room > 0
            invariant
                items.len() == u128::MAX - room,
                delivers(self.stream(), self.consumer(), items, stream, consumer),
                forwards_all(self.stream(), self.consumer(), items, stream, consumer),
            decreases room,
        {
            let ghost before = stream;
            let ghost pre = consumer;
            let (next, after, forwarded) = forward_next(consumer, stream);
            consumer = next;
            stream = after;
            if !forwarded {
                assert(drains(self.stream(), self.consumer(), items, before, consumer));
                return consumer;
            }
            proof {
                let item = choose|item: Prod::Item| #[trigger]
                    passes(before, pre, item, stream, consumer);
                let longer = items.push(item);
                assert(longer.drop_last() =~= items);
                assert(forwards(before, pre, longer.last(), stream, consumer));
                assert(pre.consumes(longer.last(), &consumer));
                assert(self.stream().taken() + longer =~= before.taken().push(item));
                items = longer;
            }
            room = room - 1;
        }
        assert(drains(self.stream(), self.consumer(), items, stream, consumer));
        consumer
    }

    /// Forward one item if one is queued, without blocking. Returns whether an
    /// item was consumed; if not, none was taken from the stream.
    pub fn poll_one(&mut self) -> (consumed: bool)
        ensures
            final(self).source() == old(self).source(),
            consumed ==> exists|item: Prod::Item| #[trigger]
                passes(
                    old(self).stream(),
                    old(self).consumer(),
                    item,
                    final(self).stream(),
                    final(self).consumer(),
                ),
            !consumed ==> misses(
                old(self).stream(),
                old(self).consumer(),
                final(self).stream(),
                final(self).consumer(),
            ),
            final(self).stream().receiver() == old(self).stream().receiver(),
            consumed ==> exists|item: Prod::Item|
                {
                    &&& final(self).stream().taken() == old(self).stream().taken().push(item)
                    &&& final(self).stream().misses() == old(self).stream().misses()
                    &&& #[trigger] old(self).consumer().consumes(item, &final(self).consumer())
                },
            !consumed ==> {
                &&& final(self).stream().taken() == old(self).stream().taken()
                &&& final(self).stream().misses() == old(self).stream().misses() + 1
                &&& final(self).consumer() == old(self).consumer()
            },
    {
        let received = self.stream.poll();
        let ghost item = received->0;
        let consumed = feed(&mut self.consumer, received);
        assert(consumed ==> passes(
            old(self).stream(),
            old(self).consumer(),
            item,
            self.stream(),
            self.consumer(),
        ));
        consumed
    }
}

/// The two ends of an attach that has yet to be built.
pub struct AttachConfig<Prod, Cons> where
    Prod: Producer,
    Cons: Consumer<Item = Prod::Item, Snap = Prod::Snap>,
 {
    pub producer: Prod,
    pub consumer: Cons,
}

/// Collects the two ends of an attach. `Fields` tells which of them are set, the
/// producer first: `()` stands for an end that is missing, `(T,)` for one that
/// is there. Only a builder with both has a `build`.
pub struct AttachConfigBuilder<Prod, Cons, Fields> {
    fields: Fields,
    _ends: PhantomData<(Prod, Cons)>,
}

impl<Prod, Cons> AttachConfig<Prod, Cons> where
    Prod: Producer,
    Cons: Consumer<Item = Prod::Item, Snap = Prod::Snap>,
 {
    /// A builder with neither end set.
    pub fn builder() -> (builder: AttachConfigBuilder<Prod, Cons, ((), ())>)
        ensures
            builder.fields() == ((), ()),
    {
        AttachConfigBuilder { fields: ((), ()), _ends: PhantomData }
    }
}

impl<Prod, Cons> Attach<Spawned, Prod, Cons> where
    Prod: Producer,
    Cons: Consumer<Item = Prod::Item, Snap = Prod::Snap>,
 {
    /// A builder with neither end set.
    pub fn builder() -> (builder: AttachConfigBuilder<Prod, Cons, ((), ())>)
        ensures
            builder.fields() == ((), ()),
    {
        AttachConfig::builder()
    }
}

impl<Prod, Cons, Fields> AttachConfigBuilder<Prod, Cons, Fields> {
    /// The ends set so far.
    pub closed spec fn fields(self) -> Fields {
        self.fields
    }
}

impl<Prod, Cons, C> AttachConfigBuilder<Prod, Cons, ((), C)> {
    /// Set the producer.
    pub fn producer(self, producer: Prod) -> (builder: AttachConfigBuilder<
        Prod,
        Cons,
        ((Prod,), C),
    >)
        ensures
            builder.fields() == ((producer,), self.fields().1),
    {
        AttachConfigBuilder { fields: ((producer,), self.fields.1), _ends: PhantomData }
    }
}

impl<Prod, Cons, P> AttachConfigBuilder<Prod, Cons, (P, ())> {
    /// Set the consumer.
    pub fn consumer(self, consumer: Cons) -> (builder: AttachConfigBuilder<
        Prod,
        Cons,
        (P, (Cons,)),
    >)
        ensures
            builder.fields() == (self.fields().0, (consumer,)),
    {
        AttachConfigBuilder { fields: (self.fields.0, (consumer,)), _ends: PhantomData }
    }
}

impl<Prod, Cons> AttachConfigBuilder<Prod, Cons, ((Prod,), (Cons,))> where
    Prod: Producer,
    Cons: Consumer<Item = Prod::Item, Snap = Prod::Snap>,
 {
    /// Build the attach, in its first phase.
    pub fn build(self) -> (attach: AttachSpawned<Prod, Cons>)
        ensures
            attach == Attach::spawned(self.fields().0.0, self.fields().1.0),
            attach.producer() == self.fields().0.0,
            attach.source().calls() == Seq::<Call<Prod>>::empty(),
            attach.consumer() == self.fields().1.0,
            attach.stream() == Stream::<Spawned, Prod::Item>::absent(),
            !attach.stream().present(),
            attach.source() == Source::unasked(self.fields().0.0),
            attach.source().port() == Port::unused(self.fields().0.0),
            attach.source().port().uses() == 0,
        no_unwind
    {
        let ((producer,), (consumer,)) = self.fields;
        Attach::begin(producer, consumer)
    }
}

impl<Prod, Cons> From<AttachConfig<Prod, Cons>> for Attach<Spawned, Prod, Cons> where
    Prod: Producer,
    Cons: Consumer<Item = Prod::Item, Snap = Prod::Snap>,
 {
    fn from(config: AttachConfig<Prod, Cons>) -> (attach: Self)
        ensures
            attach == Attach::spawned(config.producer, config.consumer),
            attach.producer() == config.producer,
            attach.source().calls() == Seq::<Call<Prod>>::empty(),
            attach.consumer() == config.consumer,
            attach.stream() == Stream::<Spawned, Prod::Item>::absent(),
            !attach.stream().present(),
            attach.source() == Source::unasked(config.producer),
            attach.source().port() == Port::unused(config.producer),
            attach.source().port().uses() == 0,
    {
        Attach::begin(config.producer, config.consumer)
    }
}

impl<Prod, Cons> vstd::std_specs::convert::FromSpecImpl<AttachConfig<Prod, Cons>> for Attach<Spawned, Prod, Cons> where
    Prod: Producer,
    Cons: Consumer<Item = Prod::Item, Snap = Prod::Snap>,
 {
    open spec fn obeys_from_spec() -> bool {
        true
    }

    open spec fn from_spec(config: AttachConfig<Prod, Cons>) -> Self {
        Attach::spawned(config.producer, config.consumer)
    }
}

/// The order in which the two ends are set makes no difference: either way the
/// builder gives the same attach, which holds exactly these ends as they were
/// given, has no call of the producer logged, and holds no receiver.
pub proof fn builder_order_makes_no_difference<Prod, Cons>(
    empty: AttachConfigBuilder<Prod, Cons, ((), ())>,
    producer: Prod,
    consumer: Cons,
    with_producer: AttachConfigBuilder<Prod, Cons, ((Prod,), ())>,
    producer_first: AttachConfigBuilder<Prod, Cons, ((Prod,), (Cons,))>,
    with_consumer: AttachConfigBuilder<Prod, Cons, ((), (Cons,))>,
    consumer_first: AttachConfigBuilder<Prod, Cons, ((Prod,), (Cons,))>,
    a: AttachSpawned<Prod, Cons>,
    b: AttachSpawned<Prod, Cons>,
) where Prod: Producer, Cons: Consumer<Item = Prod::Item, Snap = Prod::Snap>
    requires
        with_producer.fields() == ((producer,), empty.fields().1),
        producer_first.fields() == (with_producer.fields().0, (consumer,)),
        with_consumer.fields() == (empty.fields().0, (consumer,)),
        consumer_first.fields() == ((producer,), with_consumer.fields().1),
        a == Attach::spawned(producer_first.fields().0.0, producer_first.fields().1.0),
        b == Attach::spawned(consumer_first.fields().0.0, consumer_first.fields().1.0),
    ensures
        a == b,
        a.producer() == producer,
        a.consumer() == consumer,
        a.source().calls() == Seq::<Call<Prod>>::empty(),
        a.source().port() == Port::unused(producer),
        a.source().port().uses() == 0,
        !a.stream().present(),
{
    Held::<Spawned, Prod>::fresh_is_unasked(producer);
    Source::unasked_has_no_calls(producer);
    Port::unused_port_holds_its_value(producer);
    Stream::<Spawned, Prod::Item>::absent_holds_none();
}

} // verus!
