//! How the states of an attach follow from one another, and what that means for
//! what the consumer gets to see.
//!
//! An implementation of [`Producer`] and a channel may answer anything, at any
//! time. What was asked of them and what came back is on record: in the log of
//! the [`Source`], in the log of the [`Stream`], and in `call_ensures(f, args,
//! r)`, which can be known only where `f` was called with `args` and returned
//! `r`.

use vstd::prelude::*;

use crate::attach::Attach;
use crate::error::AttachError;
use crate::peer::{Consumer, Producer};
use crate::phase::Live;
use crate::source::{a_granted_request_is_two_calls, a_refused_request_ends_with_the_refusal};
use crate::source::{Call, Source};
use crate::stream::Stream;

verus! {

/// Consuming `items` one by one may lead from `pre` to `post`.
pub open spec fn consumed_all<C: Consumer>(pre: C, items: Seq<C::Item>, post: C) -> bool
    decreases items.len(),
{
    if items.len() == 0 {
        pre == post
    } else {
        exists|mid: C|
            consumed_all(pre, items.drop_last(), mid) && #[trigger] mid.consumes(
                items.last(),
                &post,
            )
    }
}

/// Exactly `items` were taken from the stream between `first` and `last`, and
/// all of them were consumed, in that order, which led from `pre` to `post`.
pub open spec fn delivers<C: Consumer>(
    first: Stream<Live, C::Item>,
    pre: C,
    items: Seq<C::Item>,
    last: Stream<Live, C::Item>,
    post: C,
) -> bool {
    &&& last.receiver() == first.receiver()
    &&& last.taken() == first.taken() + items
    &&& consumed_all(pre, items, post)
}

/// Hand `item` to the consumer, where there is one, and say whether there was.
pub fn feed<C: Consumer>(consumer: &mut C, item: Option<C::Item>) -> (fed: bool)
    ensures
        fed == (item is Some),
        match item {
            Some(item) => old(consumer).consumes(item, final(consumer)),
            None => *final(consumer) == *old(consumer),
        },
{
    match item {
        Some(item) => {
            consumer.consume(item);
            true
        },
        None => false,
    }
}

/// `item` was taken from the stream and consumed.
pub open spec fn passes<C: Consumer>(
    before: Stream<Live, C::Item>,
    pre: C,
    item: C::Item,
    after: Stream<Live, C::Item>,
    post: C,
) -> bool {
    &&& after.receiver() == before.receiver()
    &&& after.taken() == before.taken().push(item)
    &&& after.misses() == before.misses()
    &&& pre.consumes(item, &post)
}

/// The stream was polled once, had nothing queued, and nothing was taken from it
/// or consumed.
pub open spec fn misses<C: Consumer>(
    before: Stream<Live, C::Item>,
    pre: C,
    after: Stream<Live, C::Item>,
    post: C,
) -> bool {
    &&& after.receiver() == before.receiver()
    &&& after.taken() == before.taken()
    &&& after.misses() == before.misses() + 1
    &&& post == pre
}

/// Take one item from `stream`, blocking, and hand it to the consumer. Returns
/// both, and whether there was an item; there is none once the stream has ended.
pub fn forward_next<C: Consumer>(consumer: C, stream: Stream<Live, C::Item>) -> (next: (
    C,
    Stream<Live, C::Item>,
    bool,
))
    ensures
        next.2 ==> exists|item: C::Item| #[trigger] passes(stream, consumer, item, next.1, next.0),
        !next.2 ==> {
            &&& next.0 == consumer
            &&& next.1.receiver() == stream.receiver()
            &&& next.1.taken() == stream.taken()
            &&& next.1.misses() == stream.misses()
            &&& stream.ended()
        },
{
    let mut fed_consumer = consumer;
    let (after, received) = stream.next();
    proof {
        if received is None {
            stream.none_means_ended(after);
        }
    }
    let ghost item = received->0;
    let fed = feed(&mut fed_consumer, received);
    let next = (fed_consumer, after, fed);
    assert(next.2 ==> passes(stream, consumer, item, next.1, next.0));
    next
}

/// One turn of draining: `item` was taken from the stream and consumed, and
/// nothing else was taken.
pub open spec fn forwards<C: Consumer>(
    before: Stream<Live, C::Item>,
    pre: C,
    item: C::Item,
    after: Stream<Live, C::Item>,
    post: C,
) -> bool {
    &&& call_ensures(forward_next::<C>, (pre, before), (post, after, true))
    &&& passes(before, pre, item, after, post)
}

/// `items` were forwarded one after the other: each was consumed before the next
/// was taken.
pub open spec fn forwards_all<C: Consumer>(
    first: Stream<Live, C::Item>,
    pre: C,
    items: Seq<C::Item>,
    last: Stream<Live, C::Item>,
    post: C,
) -> bool
    decreases items.len(),
{
    if items.len() == 0 {
        first == last && pre == post
    } else {
        exists|between: Stream<Live, C::Item>, mid: C|
            forwards_all(first, pre, items.drop_last(), between, mid) && #[trigger] forwards(
                between,
                mid,
                items.last(),
                last,
                post,
            )
    }
}

/// The stream was drained from `first` on: `items` were taken from it, each was
/// consumed before the next was taken, and after the last the stream had ended.
/// A stream is given up, unended, after `u128::MAX` items.
pub open spec fn drains<C: Consumer>(
    first: Stream<Live, C::Item>,
    pre: C,
    items: Seq<C::Item>,
    last: Stream<Live, C::Item>,
    post: C,
) -> bool {
    &&& delivers(first, pre, items, last, post)
    &&& forwards_all(first, pre, items, last, post)
    &&& last.ended() || items.len() == u128::MAX
}

/// The stream was polled `n` times, hit or miss; `items` were taken from it and
/// consumed.
pub open spec fn polls<C: Consumer>(
    n: nat,
    first: Stream<Live, C::Item>,
    pre: C,
    items: Seq<C::Item>,
    last: Stream<Live, C::Item>,
    post: C,
) -> bool
    decreases n,
{
    if n == 0 {
        first == last && pre == post && items.len() == 0
    } else {
        ||| exists|between: Stream<Live, C::Item>, mid: C|
            {
                &&& items.len() > 0
                &&& polls((n - 1) as nat, first, pre, items.drop_last(), between, mid)
                &&& #[trigger] passes(between, mid, items.last(), last, post)
            }
        ||| exists|between: Stream<Live, C::Item>, mid: C|
            {
                &&& polls((n - 1) as nat, first, pre, items, between, mid)
                &&& #[trigger] misses(between, mid, last, post)
            }
    }
}

/// The stream was polled until a poll missed: once for each of `items`, which
/// were taken and consumed, and then once more.
pub open spec fn polls_until_empty<C: Consumer>(
    first: Stream<Live, C::Item>,
    pre: C,
    items: Seq<C::Item>,
    last: Stream<Live, C::Item>,
    post: C,
) -> bool {
    exists|between: Stream<Live, C::Item>, mid: C|
        polls(items.len(), first, pre, items, between, mid) && #[trigger] misses(
            between,
            mid,
            last,
            post,
        )
}

/// A whole attach of `pre` to `producer`, of which nothing had been asked: a
/// stream was registered, then `snapshot` captured and replayed, then the
/// untouched stream drained up to `last`, which left the consumer in state `post`.
/// The source is the one that the attach still had when it was drained.
pub open spec fn attaches<P, C>(
    producer: P,
    pre: C,
    snapshot: P::Snap,
    last: Stream<Live, P::Item>,
    post: C,
) -> bool where P: Producer, C: Consumer<Item = P::Item, Snap = P::Snap> {
    exists|unasked: Source<P>, drained: Attach<Live, P, C>|
        {
            &&& unasked.producer() == producer
            &&& unasked.calls().len() == 0
            &&& unasked.port().uses() == 0
            &&& #[trigger] unasked.obtains(last.receiver(), snapshot, drained.source())
            &&& pre.replays(snapshot, &drained.consumer())
            &&& drained.stream().untouched()
            &&& drained.stream().receiver() == last.receiver()
            &&& drains(drained.stream(), drained.consumer(), last.taken(), last, post)
            &&& call_ensures(Attach::<Live, P, C>::run, (drained,), post)
        }
}

/// A whole attach took the consumer from `pre` to `post`.
pub open spec fn attached<P, C>(producer: P, pre: C, post: C) -> bool where
    P: Producer,
    C: Consumer<Item = P::Item, Snap = P::Snap>,
 {
    exists|snapshot: P::Snap, last: Stream<Live, P::Item>| #[trigger]
        attaches(producer, pre, snapshot, last, post)
}

/// An attach to `producer`, of which nothing had been asked, was refused with
/// `error`.
pub open spec fn refused<P: Producer>(producer: P, error: AttachError) -> bool {
    exists|unasked: Source<P>, asked: Source<P>|
        {
            &&& unasked.producer() == producer
            &&& unasked.calls().len() == 0
            &&& unasked.port().uses() == 0
            &&& #[trigger] unasked.meets_refusal(error, asked)
        }
}

/// Draining ends where the stream does: whatever was taken was consumed, in that
/// order, and with fewer than `u128::MAX` items there was nothing left to take
/// and no sender.
pub proof fn draining_stops_at_the_end<C: Consumer>(
    first: Stream<Live, C::Item>,
    pre: C,
    items: Seq<C::Item>,
    last: Stream<Live, C::Item>,
    post: C,
)
    requires
        drains(first, pre, items, last, post),
    ensures
        items.len() < u128::MAX ==> last.ended(),
        last.receiver() == first.receiver(),
        last.taken() == first.taken() + items,
        consumed_all(pre, items, post),
{
}

/// Items are forwarded one by one: the last of them was taken from the stream
/// and consumed after all the others had been.
pub proof fn items_are_forwarded_one_by_one<C: Consumer>(
    first: Stream<Live, C::Item>,
    pre: C,
    items: Seq<C::Item>,
    last: Stream<Live, C::Item>,
    post: C,
)
    requires
        forwards_all(first, pre, items, last, post),
    ensures
        items.len() == 0 ==> first == last && pre == post,
        items.len() > 0 ==> exists|between: Stream<Live, C::Item>, mid: C|
            {
                &&& forwards_all(first, pre, items.drop_last(), between, mid)
                &&& #[trigger] call_ensures(
                    forward_next::<C>,
                    (mid, between),
                    (post, last, true),
                )
                &&& last.receiver() == between.receiver()
                &&& last.taken() == between.taken().push(items.last())
                &&& mid.consumes(items.last(), &post)
            },
{
    if items.len() > 0 {
        let (between, mid) = choose|between: Stream<Live, C::Item>, mid: C|
            forwards_all(first, pre, items.drop_last(), between, mid) && #[trigger] forwards(
                between,
                mid,
                items.last(),
                last,
                post,
            );
        assert(call_ensures(forward_next::<C>, (mid, between), (post, last, true)));
    }
}

/// In a whole attach the producer is called twice in all, `subscribe` first and
/// then `snapshot`: that is what its source has on record when the stream is
/// drained, from the first item on, to its end.
pub proof fn an_attach_asks_twice_and_drains<P, C>(
    producer: P,
    pre: C,
    snapshot: P::Snap,
    last: Stream<Live, P::Item>,
    post: C,
) -> (drained: Attach<Live, P, C>) where P: Producer, C: Consumer<Item = P::Item, Snap = P::Snap>
    requires
        attaches(producer, pre, snapshot, last, post),
    ensures
        call_ensures(Attach::<Live, P, C>::run, (drained,), post),
        drained.producer() == producer,
        drained.source().calls() == seq![
            Call::<P>::Subscribe(Ok(last.receiver())),
            Call::<P>::Snapshot(Ok(snapshot)),
        ],
        drained.source().port().uses() == 2,
        call_ensures(P::subscribe, (&producer,), Ok(last.receiver())),
        call_ensures(P::snapshot, (&producer,), Ok(snapshot)),
        pre.replays(snapshot, &drained.consumer()),
        drained.stream().present(),
        drained.stream().receiver() == last.receiver(),
        drained.stream().rest() == last.receiver(),
        drained.stream().taken() == Seq::<P::Item>::empty(),
        consumed_all(drained.consumer(), last.taken(), post),
        forwards_all(drained.stream(), drained.consumer(), last.taken(), last, post),
        last.taken().len() < u128::MAX ==> last.ended(),
{
    let (unasked, drained) = choose|unasked: Source<P>, drained: Attach<Live, P, C>|
        {
            &&& unasked.producer() == producer
            &&& unasked.calls().len() == 0
            &&& unasked.port().uses() == 0
            &&& #[trigger] unasked.obtains(last.receiver(), snapshot, drained.source())
            &&& pre.replays(snapshot, &drained.consumer())
            &&& drained.stream().untouched()
            &&& drained.stream().receiver() == last.receiver()
            &&& drains(drained.stream(), drained.consumer(), last.taken(), last, post)
            &&& call_ensures(Attach::<Live, P, C>::run, (drained,), post)
        };
    a_granted_request_is_two_calls(unasked, last.receiver(), snapshot, drained.source());
    draining_stops_at_the_end(
        drained.stream(),
        drained.consumer(),
        last.taken(),
        last,
        post,
    );
    assert(drained.source().calls() =~= seq![
        Call::<P>::Subscribe(Ok(last.receiver())),
        Call::<P>::Snapshot(Ok(snapshot)),
    ]);
    drained
}

/// An attach is refused only with an error that the producer gave, and the
/// producer is not called after that: once where `subscribe` failed, twice where
/// `snapshot` did.
pub proof fn a_refused_attach_reports_the_producers_error<P: Producer>(
    producer: P,
    error: AttachError,
) -> (asked: Source<P>)
    requires
        refused(producer, error),
    ensures
        asked.producer() == producer,
        asked.port().uses() == asked.calls().len(),
        asked.calls().len() == 1 || asked.calls().len() == 2,
        asked.calls().len() == 1 ==> {
            &&& asked.calls()[0] == Call::<P>::Subscribe(Err(error))
            &&& call_ensures(P::subscribe, (&producer,), Err(error))
        },
        asked.calls().len() == 2 ==> {
            &&& asked.calls()[0] matches Call::Subscribe(answer)
            &&& answer is Ok
            &&& call_ensures(P::subscribe, (&producer,), answer)
            &&& asked.calls()[1] == Call::<P>::Snapshot(Err(error))
            &&& call_ensures(P::snapshot, (&producer,), Err(error))
        },
{
    let (unasked, asked) = choose|unasked: Source<P>, asked: Source<P>|
        {
            &&& unasked.producer() == producer
            &&& unasked.calls().len() == 0
            &&& unasked.port().uses() == 0
            &&& #[trigger] unasked.meets_refusal(error, asked)
        };
    a_refused_request_ends_with_the_refusal(unasked, error, asked);
    asked
}

/// Consuming two runs of items one after the other is consuming them joined.
pub proof fn consuming_joins<C: Consumer>(
    pre: C,
    items: Seq<C::Item>,
    mid: C,
    more: Seq<C::Item>,
    post: C,
)
    requires
        consumed_all(pre, items, mid),
        consumed_all(mid, more, post),
    ensures
        consumed_all(pre, items + more, post),
    decreases more.len(),
{
    if more.len() == 0 {
        assert(items + more =~= items);
    } else {
        let joined = items + more;
        let before = choose|before: C|
            consumed_all(mid, more.drop_last(), before) && #[trigger] before.consumes(
                more.last(),
                &post,
            );
        consuming_joins(pre, items, mid, more.drop_last(), before);
        assert(joined.drop_last() =~= items + more.drop_last());
        assert(before.consumes(joined.last(), &post));
    }
}

/// Polling delivers what it takes, however often it is done, and every poll that
/// took nothing was a miss.
pub proof fn polling_delivers<C: Consumer>(
    n: nat,
    first: Stream<Live, C::Item>,
    pre: C,
    items: Seq<C::Item>,
    last: Stream<Live, C::Item>,
    post: C,
)
    requires
        polls(n, first, pre, items, last, post),
    ensures
        delivers(first, pre, items, last, post),
        items.len() <= n,
        last.misses() == first.misses() + (n - items.len()),
    decreases n,
{
    if n == 0 {
        assert(first.taken() + items =~= first.taken());
    } else {
        let fewer = (n - 1) as nat;
        if exists|between: Stream<Live, C::Item>, mid: C|
            {
                &&& items.len() > 0
                &&& polls(fewer, first, pre, items.drop_last(), between, mid)
                &&& #[trigger] passes(between, mid, items.last(), last, post)
            } {
            let (between, mid) = choose|between: Stream<Live, C::Item>, mid: C|
                {
                    &&& items.len() > 0
                    &&& polls(fewer, first, pre, items.drop_last(), between, mid)
                    &&& #[trigger] passes(between, mid, items.last(), last, post)
                };
            polling_delivers(fewer, first, pre, items.drop_last(), between, mid);
            assert((first.taken() + items.drop_last()).push(items.last()) =~= first.taken()
                + items);
            assert(mid.consumes(items.last(), &post));
        } else {
            let (between, mid) = choose|between: Stream<Live, C::Item>, mid: C|
                {
                    &&& polls(fewer, first, pre, items, between, mid)
                    &&& #[trigger] misses(between, mid, last, post)
                };
            polling_delivers(fewer, first, pre, items, between, mid);
        }
    }
}

/// One poll more: a hit adds its item to what was polled.
pub proof fn a_hit_is_one_more_poll<C: Consumer>(
    n: nat,
    first: Stream<Live, C::Item>,
    pre: C,
    items: Seq<C::Item>,
    between: Stream<Live, C::Item>,
    mid: C,
    item: C::Item,
    last: Stream<Live, C::Item>,
    post: C,
)
    requires
        polls(n, first, pre, items, between, mid),
        last.receiver() == between.receiver(),
        last.taken() == between.taken().push(item),
        last.misses() == between.misses(),
        mid.consumes(item, &post),
    ensures
        polls(n + 1, first, pre, items.push(item), last, post),
{
    let longer = items.push(item);
    assert(longer.drop_last() =~= items);
    assert(passes(between, mid, longer.last(), last, post));
    assert((n + 1 - 1) as nat == n);
}

/// One poll more: a miss adds nothing to what was polled.
pub proof fn a_miss_is_one_more_poll<C: Consumer>(
    n: nat,
    first: Stream<Live, C::Item>,
    pre: C,
    items: Seq<C::Item>,
    between: Stream<Live, C::Item>,
    mid: C,
    last: Stream<Live, C::Item>,
)
    requires
        polls(n, first, pre, items, between, mid),
        last.receiver() == between.receiver(),
        last.taken() == between.taken(),
        last.misses() == between.misses() + 1,
    ensures
        polls(n + 1, first, pre, items, last, mid),
{
    assert(misses(between, mid, last, mid));
    assert((n + 1 - 1) as nat == n);
}

/// Polling any number of times and then draining delivers all that is taken from
/// the stream, in order, as draining alone does.
pub proof fn polling_then_draining_delivers<C: Consumer>(
    n: nat,
    first: Stream<Live, C::Item>,
    pre: C,
    polled: Seq<C::Item>,
    between: Stream<Live, C::Item>,
    mid: C,
    drained: Seq<C::Item>,
    last: Stream<Live, C::Item>,
    post: C,
)
    requires
        polls(n, first, pre, polled, between, mid),
        drains(between, mid, drained, last, post),
    ensures
        delivers(first, pre, polled + drained, last, post),
{
    polling_delivers(n, first, pre, polled, between, mid);
    consuming_joins(pre, polled, mid, drained, post);
    assert(first.taken() + polled + drained =~= first.taken() + (polled + drained));
}

/// It makes no difference how a stream is emptied. Consumers in the same state
/// are on three streams, off each of which comes `queued` and nothing else; one
/// is polled until a poll misses, one is drained, and one is polled any number of
/// times and then drained. Each consumer consumes exactly `queued`, in order, and
/// on the first stream one poll hits for each item and a single one misses.
pub proof fn polling_and_draining_deliver_the_same<C: Consumer>(
    pre: C,
    queued: Seq<C::Item>,
    polled_first: Stream<Live, C::Item>,
    polled: Seq<C::Item>,
    polled_last: Stream<Live, C::Item>,
    polled_post: C,
    drained_first: Stream<Live, C::Item>,
    drained: Seq<C::Item>,
    drained_last: Stream<Live, C::Item>,
    drained_post: C,
    n: nat,
    mixed_first: Stream<Live, C::Item>,
    head: Seq<C::Item>,
    between: Stream<Live, C::Item>,
    mid: C,
    tail: Seq<C::Item>,
    mixed_last: Stream<Live, C::Item>,
    mixed_post: C,
)
    requires
        polls_until_empty(polled_first, pre, polled, polled_last, polled_post),
        polled_last.taken() == polled_first.taken() + queued,
        drains(drained_first, pre, drained, drained_last, drained_post),
        drained_last.taken() == drained_first.taken() + queued,
        polls(n, mixed_first, pre, head, between, mid),
        drains(between, mid, tail, mixed_last, mixed_post),
        mixed_last.taken() == mixed_first.taken() + queued,
    ensures
        polled == queued,
        polled_last.misses() == polled_first.misses() + 1,
        drained == queued,
        head + tail == queued,
        consumed_all(pre, queued, polled_post),
        consumed_all(pre, queued, drained_post),
        consumed_all(pre, queued, mixed_post),
{
    let (hit, held) = choose|hit: Stream<Live, C::Item>, held: C|
        polls(polled.len(), polled_first, pre, polled, hit, held) && #[trigger] misses(
            hit,
            held,
            polled_last,
            polled_post,
        );
    polling_delivers(polled.len(), polled_first, pre, polled, hit, held);
    polling_then_draining_delivers(
        n,
        mixed_first,
        pre,
        head,
        between,
        mid,
        tail,
        mixed_last,
        mixed_post,
    );
    same_suffix(polled_first.taken(), polled, queued);
    same_suffix(drained_first.taken(), drained, queued);
    same_suffix(mixed_first.taken(), head + tail, queued);
}

proof fn same_suffix<T>(prefix: Seq<T>, a: Seq<T>, b: Seq<T>)
    requires
        prefix + a == prefix + b,
    ensures
        a == b,
{
    let n = prefix.len() as int;
    assert(a =~= (prefix + a).skip(n));
    assert(b =~= (prefix + b).skip(n));
}

/// Consumers that keep a record: replaying a snapshot appends `past(snapshot)`
/// to what was observed, and consuming an item appends `entry(item)`.
pub open spec fn keeps_record<C: Consumer, A>(
    observed: spec_fn(C) -> Seq<A>,
    past: spec_fn(C::Snap) -> Seq<A>,
    entry: spec_fn(C::Item) -> A,
) -> bool {
    &&& forall|pre: C, snapshot: C::Snap, post: C| #[trigger]
        pre.replays(snapshot, &post) ==> observed(post) == observed(pre) + past(snapshot)
    &&& forall|pre: C, item: C::Item, post: C| #[trigger]
        pre.consumes(item, &post) ==> observed(post) == observed(pre).push(entry(item))
}

/// A consumer that appends to what it has observed keeps a record.
pub proof fn appending_keeps_a_record<C: Consumer, A>(
    observed: spec_fn(C) -> Seq<A>,
    past: spec_fn(C::Snap) -> Seq<A>,
    entry: spec_fn(C::Item) -> A,
)
    requires
        forall|pre: C, snapshot: C::Snap, post: C| #[trigger]
            pre.replays(snapshot, &post) ==> observed(post) == observed(pre) + past(snapshot),
        forall|pre: C, item: C::Item, post: C| #[trigger]
            pre.consumes(item, &post) ==> observed(post) == observed(pre).push(entry(item)),
    ensures
        keeps_record(observed, past, entry),
{
}

/// Consumed items are observed in order: none is skipped, none repeated.
pub proof fn consumed_items_are_observed_in_order<C: Consumer, A>(
    pre: C,
    items: Seq<C::Item>,
    post: C,
    observed: spec_fn(C) -> Seq<A>,
    past: spec_fn(C::Snap) -> Seq<A>,
    entry: spec_fn(C::Item) -> A,
)
    requires
        consumed_all(pre, items, post),
        keeps_record(observed, past, entry),
    ensures
        observed(post) == observed(pre) + items.map_values(entry),
    decreases items.len(),
{
    if items.len() == 0 {
        assert(observed(post) =~= observed(pre) + items.map_values(entry));
    } else {
        let mid = choose|mid: C|
            consumed_all(pre, items.drop_last(), mid) && #[trigger] mid.consumes(
                items.last(),
                &post,
            );
        consumed_items_are_observed_in_order(
            pre,
            items.drop_last(),
            mid,
            observed,
            past,
            entry,
        );
        assert(observed(post) =~= observed(pre) + items.map_values(entry));
    }
}

/// What a consumer observes of a drained stream is everything that was taken from
/// it, in order, each item once; and below `u128::MAX` items the stream was drained
/// to its end, so nothing was left on it.
pub proof fn draining_is_observed_in_full<C: Consumer, A>(
    first: Stream<Live, C::Item>,
    pre: C,
    items: Seq<C::Item>,
    last: Stream<Live, C::Item>,
    post: C,
    observed: spec_fn(C) -> Seq<A>,
    past: spec_fn(C::Snap) -> Seq<A>,
    entry: spec_fn(C::Item) -> A,
)
    requires
        drains(first, pre, items, last, post),
        keeps_record(observed, past, entry),
    ensures
        last.taken() == first.taken() + items,
        observed(post) == observed(pre) + items.map_values(entry),
        items.len() < u128::MAX ==> last.ended(),
{
    draining_stops_at_the_end(first, pre, items, last, post);
    consumed_items_are_observed_in_order(pre, items, post, observed, past, entry);
}

/// What a consumer observes of an attach is the snapshot's past followed by
/// everything that was taken from the live stream, in order.
pub proof fn snapshot_then_live<P, C, A>(
    producer: P,
    pre: C,
    snapshot: P::Snap,
    last: Stream<Live, P::Item>,
    post: C,
    observed: spec_fn(C) -> Seq<A>,
    past: spec_fn(P::Snap) -> Seq<A>,
    entry: spec_fn(P::Item) -> A,
) where P: Producer, C: Consumer<Item = P::Item, Snap = P::Snap>
    requires
        attaches(producer, pre, snapshot, last, post),
        keeps_record(observed, past, entry),
    ensures
        observed(post) == observed(pre) + past(snapshot) + last.taken().map_values(entry),
{
    let drained = an_attach_asks_twice_and_drains(producer, pre, snapshot, last, post);
    consumed_items_are_observed_in_order(
        drained.consumer(),
        last.taken(),
        post,
        observed,
        past,
        entry,
    );
}

/// Nothing that the producer emits is lost. Of everything it emitted,
/// `registered_at` entries came before the stream was registered and
/// `captured_at` entries before the snapshot was captured; the stream is
/// registered first, and what was emitted since came off the channel. Then every
/// entry is observed, what was emitted between the two moments is observed
/// twice, and the rest once, in order. If nothing was emitted in between, the
/// consumer observes exactly what was emitted.
pub proof fn nothing_is_lost<P, C, A>(
    producer: P,
    pre: C,
    snapshot: P::Snap,
    last: Stream<Live, P::Item>,
    post: C,
    observed: spec_fn(C) -> Seq<A>,
    past: spec_fn(P::Snap) -> Seq<A>,
    entry: spec_fn(P::Item) -> A,
    emitted: Seq<A>,
    registered_at: int,
    captured_at: int,
) where P: Producer, C: Consumer<Item = P::Item, Snap = P::Snap>
    requires
        attaches(producer, pre, snapshot, last, post),
        keeps_record(observed, past, entry),
        0 <= registered_at <= captured_at <= emitted.len(),
        past(snapshot) == emitted.take(captured_at),
        last.taken().map_values(entry) == emitted.skip(registered_at),
    ensures
        observed(post) == observed(pre) + emitted.take(captured_at) + emitted.subrange(
            registered_at,
            captured_at,
        ) + emitted.skip(captured_at),
        forall|i: int| 0 <= i < emitted.len() ==> observed(post).contains(#[trigger] emitted[i]),
        registered_at == captured_at ==> observed(post) == observed(pre) + emitted,
{
    snapshot_then_live(producer, pre, snapshot, last, post, observed, past, entry);
    let seen = observed(post);
    let before = observed(pre).len();
    assert(seen =~= observed(pre) + emitted.take(captured_at) + emitted.subrange(
        registered_at,
        captured_at,
    ) + emitted.skip(captured_at));
    assert forall|i: int| 0 <= i < emitted.len() implies seen.contains(#[trigger] emitted[i]) by {
        if i < captured_at {
            assert(seen[before + i] == emitted[i]);
        } else {
            assert(seen[before + captured_at + (i - registered_at)] == emitted[i]);
        }
    }
    if registered_at == captured_at {
        assert(seen =~= observed(pre) + emitted);
    }
}

/// The other order loses entries: with the snapshot captured before the stream
/// is registered, an entry emitted between the two is neither in the snapshot's
/// past nor on the stream.
pub proof fn snapshot_first_loses_entries<A>(
    emitted: Seq<A>,
    captured_at: int,
    registered_at: int,
    i: int,
)
    requires
        emitted.no_duplicates(),
        0 <= captured_at <= i < registered_at <= emitted.len(),
    ensures
        !(emitted.take(captured_at) + emitted.skip(registered_at)).contains(emitted[i]),
{
    let seen = emitted.take(captured_at) + emitted.skip(registered_at);
    assert forall|k: int| 0 <= k < seen.len() implies seen[k] != emitted[i] by {
        if k < captured_at {
            assert(seen[k] == emitted[k]);
        } else {
            assert(seen[k] == emitted[k - captured_at + registered_at]);
        }
    }
}

} // verus!
