//! An attach as a one-shot job of a scheduler.

use std::sync::Arc;

use shigoto_types::{JobScope, JobSubject};
use vstd::prelude::*;

use crate::attach::Attach;
use crate::error::{labelled, AttachError};
use crate::lifecycle;
use crate::peer::{Consumer, Producer};
use crate::phase::Live;
use crate::source::Call;
use crate::stream::Stream;

verus! {

/// The kind under which a scheduler files attach jobs.
pub const KIND: &'static str = "engate.attach";

/// `shigoto_types::JobScope`, the first coordinate of a job's identity.
#[verifier::external_type_specification]
#[verifier::external_body]
pub struct ExJobScope(shigoto_types::JobScope);

/// `shigoto_types::JobSubject`, the last coordinate of a job's identity.
#[verifier::external_type_specification]
#[verifier::external_body]
pub struct ExJobSubject(shigoto_types::JobSubject);

/// `JobScope::clone`. Trusted: the copy equals the original.
pub assume_specification[ <shigoto_types::JobScope as Clone>::clone ](
    scope: &shigoto_types::JobScope,
) -> (copy: shigoto_types::JobScope)
    ensures
        copy == *scope,
;

/// `JobSubject::clone`. Trusted: the copy equals the original.
pub assume_specification[ <shigoto_types::JobSubject as Clone>::clone ](
    subject: &shigoto_types::JobSubject,
) -> (copy: shigoto_types::JobSubject)
    ensures
        copy == *subject,
;

/// What an attach job yields: the consumer at the end of its stream, shared
/// among whoever comes after.
pub struct AttachedHandle<Cons: Send + Sync + 'static>(pub Arc<Cons>);

impl<Cons: Send + Sync + 'static> AttachedHandle<Cons> {
    /// The consumer shared.
    pub open spec fn consumer(self) -> Cons {
        *self.0
    }
}

/// A clone shares the consumer, whether or not the consumer can be cloned.
impl<Cons: Send + Sync + 'static> Clone for AttachedHandle<Cons> {
    fn clone(&self) -> (copy: Self)
        ensures
            copy == *self,
    {
        AttachedHandle(Arc::clone(&self.0))
    }
}

/// Why an attach job did not yield a handle.
#[derive(Debug)]
pub enum AttachJobError {
    /// The attach failed.
    Attach(AttachError),
    /// The job has run before.
    AlreadyConsumed,
}

impl From<AttachError> for AttachJobError {
    fn from(error: AttachError) -> (job_error: Self)
        ensures
            job_error == AttachJobError::Attach(error),
    {
        AttachJobError::Attach(error)
    }
}

impl vstd::std_specs::convert::FromSpecImpl<AttachError> for AttachJobError {
    open spec fn obeys_from_spec() -> bool {
        true
    }

    open spec fn from_spec(error: AttachError) -> Self {
        AttachJobError::Attach(error)
    }
}

impl AttachJobError {
    /// The message shown for this error.
    pub open spec fn text(self) -> Seq<char> {
        match self {
            AttachJobError::Attach(error) => "engate attach failed: "@ + error.text(),
            AttachJobError::AlreadyConsumed =>
                "AttachJob is one-shot and has already executed"@,
        }
    }

    /// The message shown for this error.
    pub fn to_string(&self) -> (s: String)
        ensures
            s@ == self.text(),
    {
        match self {
            AttachJobError::Attach(error) => labelled(
                "engate attach failed: ",
                &error.to_string(),
            ),
            AttachJobError::AlreadyConsumed =>
                "AttachJob is one-shot and has already executed".to_owned(),
        }
    }
}

/// A job that attaches one consumer to one producer, once.
pub struct AttachJob<Prod, Cons> where
    Prod: Producer,
    Cons: Consumer<Item = Prod::Item, Snap = Prod::Snap> + Sync,
 {
    scope: JobScope,
    subject: JobSubject,
    inner: Option<(Prod, Cons)>,
}

impl<Prod, Cons> AttachJob<Prod, Cons> where
    Prod: Producer,
    Cons: Consumer<Item = Prod::Item, Snap = Prod::Snap> + Sync,
 {
    /// The job's scope.
    pub closed spec fn held_scope(self) -> JobScope {
        self.scope
    }

    /// The job's subject.
    pub closed spec fn held_subject(self) -> JobSubject {
        self.subject
    }

    /// The pair to attach, until the job takes it.
    pub closed spec fn pending(self) -> Option<(Prod, Cons)> {
        self.inner
    }

    /// A job that has not run.
    pub fn new(scope: JobScope, subject: JobSubject, producer: Prod, consumer: Cons) -> (job: Self)
        ensures
            job.held_scope() == scope,
            job.held_subject() == subject,
            job.pending() == Some((producer, consumer)),
        no_unwind
    {
        AttachJob { scope, subject, inner: Some((producer, consumer)) }
    }

    /// The job's scope.
    pub fn scope(&self) -> (scope: JobScope)
        ensures
            scope == self.held_scope(),
    {
        self.scope.clone()
    }

    /// The job's subject.
    pub fn subject(&self) -> (subject: JobSubject)
        ensures
            subject == self.held_subject(),
    {
        self.subject.clone()
    }

    /// Take the pair to attach. There is none the second time.
    pub fn take(&mut self) -> (pair: Option<(Prod, Cons)>)
        ensures
            pair == old(self).pending(),
            final(self).pending() is None,
            final(self).held_scope() == old(self).held_scope(),
            final(self).held_subject() == old(self).held_subject(),
        no_unwind
    {
        let mut pair = None;
        core::mem::swap(&mut pair, &mut self.inner);
        pair
    }

    /// What a job that took `pair` may yield: a refusal where there was no pair,
    /// the end of a whole attach, or the producer's refusal.
    pub open spec fn yields(
        pair: Option<(Prod, Cons)>,
        outcome: Result<AttachedHandle<Cons>, AttachJobError>,
    ) -> bool {
        match pair {
            None => outcome == Err::<AttachedHandle<Cons>, AttachJobError>(
                AttachJobError::AlreadyConsumed,
            ),
            Some((producer, consumer)) => match outcome {
                Ok(handle) => lifecycle::attached(producer, consumer, handle.consumer()),
                Err(AttachJobError::Attach(error)) => lifecycle::refused(producer, error),
                Err(AttachJobError::AlreadyConsumed) => false,
            },
        }
    }

    /// A run of the job yielded `outcome` and left it as `after`: without a pair,
    /// and otherwise the same.
    pub open spec fn runs(
        self,
        outcome: Result<AttachedHandle<Cons>, AttachJobError>,
        after: Self,
    ) -> bool {
        &&& Self::yields(self.pending(), outcome)
        &&& after.pending() is None
        &&& after.held_scope() == self.held_scope()
        &&& after.held_subject() == self.held_subject()
    }

    /// Run the attach of a taken pair from end to end: subscribe, replay, and
    /// forward live items until the stream is closed.
    pub fn attach_to_end(pair: Option<(Prod, Cons)>) -> (outcome: Result<
        AttachedHandle<Cons>,
        AttachJobError,
    >)
        ensures
            Self::yields(pair, outcome),
            pair is None <==> (outcome matches Err(error) && error is AlreadyConsumed),
            pair is Some && outcome is Ok ==> exists|
                drained: Attach<Live, Prod, Cons>,
                snapshot: Prod::Snap,
            |
                {
                    &&& #[trigger] call_ensures(
                        Attach::<Live, Prod, Cons>::run,
                        (drained,),
                        *(outcome->Ok_0).0,
                    )
                    &&& drained.producer() == (pair->0).0
                    &&& drained.source().calls() == seq![
                        Call::<Prod>::Subscribe(Ok(drained.stream().receiver())),
                        Call::<Prod>::Snapshot(Ok(snapshot)),
                    ]
                    &&& drained.source().port().uses() == 2
                    &&& #[trigger] (pair->0).1.replays(snapshot, &drained.consumer())
                    &&& drained.stream().rest() == drained.stream().receiver()
                    &&& drained.stream().taken() == Seq::<Prod::Item>::empty()
                },
            outcome matches Err(AttachJobError::Attach(error)) ==> {
                ||| call_ensures(Prod::subscribe, (&(pair->0).0,), Err(error))
                ||| call_ensures(Prod::snapshot, (&(pair->0).0,), Err(error))
            },
    {
        match pair {
            None => Err(AttachJobError::AlreadyConsumed),
            Some((producer, consumer)) => {
                let attach = Attach::builder().producer(producer).consumer(consumer).build();
                let ghost unasked = attach.source();
                match attach.subscribe() {
                    Err(error) => Err(AttachJobError::from(error)),
                    Ok((attach, history)) => match attach.replay(history) {
                        Err(error) => Err(AttachJobError::from(error)),
                        Ok(attach) => {
                            let attach = attach.start_live();
                            let ghost drained = attach;
                            let end = attach.run();
                            proof {
                                let (items, last) = choose|
                                    items: Seq<Prod::Item>,
                                    last: Stream<Live, Prod::Item>,
                                | #[trigger]
                                    lifecycle::drains(
                                        drained.stream(),
                                        drained.consumer(),
                                        items,
                                        last,
                                        end,
                                    );
                                assert(items =~= last.taken());
                                assert(unasked.obtains(
                                    last.receiver(),
                                    history.snapshot(),
                                    drained.source(),
                                ));
                                assert(lifecycle::attaches(
                                    producer,
                                    consumer,
                                    history.snapshot(),
                                    last,
                                    end,
                                ));
                                assert(lifecycle::attached(producer, consumer, end));
                                assert(consumer.replays(history.snapshot(), &drained.consumer()));
                                assert(drained.source().calls() =~= seq![
                                    Call::<Prod>::Subscribe(Ok(drained.stream().receiver())),
                                    Call::<Prod>::Snapshot(Ok(history.snapshot())),
                                ]);
                            }
                            Ok(AttachedHandle(Arc::new(end)))
                        },
                    },
                }
            },
        }
    }

    /// Run the job. Blocks until the producer closes its stream.
    pub fn execute_body(&mut self) -> (outcome: Result<AttachedHandle<Cons>, AttachJobError>)
        ensures
            old(self).runs(outcome, *final(self)),
            call_ensures(Self::attach_to_end, (old(self).pending(),), outcome),
            final(self).pending() is None,
            final(self).held_scope() == old(self).held_scope(),
            final(self).held_subject() == old(self).held_subject(),
    {
        let pair = self.take();
        Self::attach_to_end(pair)
    }
}

/// What a run of a job comes to. It takes the pair and leaves the job's identity
/// as it was. Without a pair it is refused. With one, it succeeds unless a call of
/// the producer failed, and then reports that call's error; on success the
/// producer was called twice in all, `subscribe` and then `snapshot`, before the
/// stream was drained from its first item on.
pub proof fn a_run_is_one_whole_attach<Prod, Cons>(
    job: AttachJob<Prod, Cons>,
    outcome: Result<AttachedHandle<Cons>, AttachJobError>,
    after: AttachJob<Prod, Cons>,
) where Prod: Producer, Cons: Consumer<Item = Prod::Item, Snap = Prod::Snap> + Sync
    requires
        job.runs(outcome, after),
    ensures
        after.pending() is None,
        after.held_scope() == job.held_scope(),
        after.held_subject() == job.held_subject(),
        job.pending() is None <==> (outcome matches Err(error) && error is AlreadyConsumed),
        outcome is Ok ==> exists|
            drained: Attach<Live, Prod, Cons>,
            snapshot: Prod::Snap,
        |
            {
                &&& #[trigger] call_ensures(
                    Attach::<Live, Prod, Cons>::run,
                    (drained,),
                    *(outcome->Ok_0).0,
                )
                &&& drained.producer() == (job.pending()->0).0
                &&& drained.source().calls() == seq![
                    Call::<Prod>::Subscribe(Ok(drained.stream().receiver())),
                    Call::<Prod>::Snapshot(Ok(snapshot)),
                ]
                &&& drained.source().port().uses() == 2
                &&& #[trigger] (job.pending()->0).1.replays(snapshot, &drained.consumer())
                &&& drained.stream().rest() == drained.stream().receiver()
                &&& drained.stream().taken() == Seq::<Prod::Item>::empty()
            },
        outcome matches Err(AttachJobError::Attach(error)) ==> {
            ||| call_ensures(Prod::subscribe, (&(job.pending()->0).0,), Err(error))
            ||| call_ensures(Prod::snapshot, (&(job.pending()->0).0,), Err(error))
        },
{
    if job.pending() is Some {
        let (producer, consumer) = job.pending()->0;
        match outcome {
            Ok(handle) => {
                let end = *handle.0;
                let (snapshot, last) = choose|
                    snapshot: Prod::Snap,
                    last: Stream<Live, Prod::Item>,
                | #[trigger]
                    lifecycle::attaches(producer, consumer, snapshot, last, end);
                let drained = lifecycle::an_attach_asks_twice_and_drains(
                    producer,
                    consumer,
                    snapshot,
                    last,
                    end,
                );
                assert(call_ensures(Attach::<Live, Prod, Cons>::run, (drained,), end));
                assert(consumer.replays(snapshot, &drained.consumer()));
            },
            Err(AttachJobError::Attach(error)) => {
                let asked = lifecycle::a_refused_attach_reports_the_producers_error(
                    producer,
                    error,
                );
            },
            Err(AttachJobError::AlreadyConsumed) => {},
        }
    }
}

/// Every job error is shown as what failed, followed by the attach's own message
/// where the attach failed.
pub proof fn job_errors_say_what_failed(error: AttachError)
    ensures
        AttachJobError::Attach(error).text() == "engate attach failed: "@ + error.text(),
        AttachJobError::AlreadyConsumed.text()
            == "AttachJob is one-shot and has already executed"@,
{
}

/// A job attaches at most once: after one run, whatever came of it, the next is
/// refused as already run. A job that has not run is never refused so.
pub proof fn job_runs_at_most_once<Prod, Cons>(
    fresh: AttachJob<Prod, Cons>,
    first: Result<AttachedHandle<Cons>, AttachJobError>,
    spent: AttachJob<Prod, Cons>,
    second: Result<AttachedHandle<Cons>, AttachJobError>,
    after: AttachJob<Prod, Cons>,
) where Prod: Producer, Cons: Consumer<Item = Prod::Item, Snap = Prod::Snap> + Sync
    requires
        fresh.pending() is Some,
        fresh.runs(first, spent),
        spent.runs(second, after),
    ensures
        !(first matches Err(error) && error is AlreadyConsumed),
        second matches Err(error) && error is AlreadyConsumed,
{
}

} // verus!
