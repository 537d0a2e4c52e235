//! Attach jobs.

use std::sync::mpsc;
use std::sync::{Arc, Mutex};

use engate::job::KIND;
use engate::{AttachError, AttachJob, AttachJobError, AttachedHandle, Consumer, Producer};
use shigoto_types::{JobScope, JobSubject};

/// A producer that emits its live items as soon as it is subscribed to, and then
/// closes the stream.
struct TestProducer {
    snap: Result<Vec<u8>, String>,
    live: Vec<u8>,
}

impl Producer for TestProducer {
    type Item = u8;
    type Snap = Vec<u8>;

    fn snapshot(&self) -> Result<Self::Snap, AttachError> {
        match &self.snap {
            Ok(snap) => Ok(snap.clone()),
            Err(why) => Err(AttachError::SnapshotFailed(why.clone())),
        }
    }

    fn subscribe(&self) -> Result<mpsc::Receiver<Self::Item>, AttachError> {
        let (tx, rx) = mpsc::channel();
        for b in &self.live {
            tx.send(*b).unwrap();
        }
        Ok(rx)
    }
}

#[derive(Default)]
struct TestConsumer(Arc<Mutex<Vec<u8>>>);

impl Consumer for TestConsumer {
    type Item = u8;
    type Snap = Vec<u8>;

    fn replay(&mut self, snapshot: Self::Snap) {
        self.0.lock().unwrap().extend(snapshot);
    }

    fn consume(&mut self, item: Self::Item) {
        self.0.lock().unwrap().push(item);
    }
}

fn job(
    snap: Result<Vec<u8>, String>,
    observed: &Arc<Mutex<Vec<u8>>>,
) -> AttachJob<TestProducer, TestConsumer> {
    AttachJob::new(
        JobScope::Workspace("ws".into()),
        JobSubject::Pinned("test-attach".into()),
        TestProducer { snap, live: vec![4, 5, 6] },
        TestConsumer(observed.clone()),
    )
}

#[test]
fn attach_job_runs_full_lifecycle() {
    let observed = Arc::new(Mutex::new(Vec::<u8>::new()));
    let mut job = AttachJob::new(
        JobScope::Global,
        JobSubject::Pinned("test-attach".into()),
        TestProducer { snap: Ok(vec![1, 2, 3]), live: vec![4, 5, 6] },
        TestConsumer(observed.clone()),
    );
    let result = job.execute_body();
    assert!(result.is_ok(), "attach job should succeed");
    assert_eq!(*observed.lock().unwrap(), vec![1, 2, 3, 4, 5, 6]);
}

#[test]
fn attach_job_runs_once() {
    let observed = Arc::new(Mutex::new(Vec::<u8>::new()));
    let mut job = job(Ok(vec![1]), &observed);
    assert!(job.execute_body().is_ok());
    assert!(matches!(job.execute_body(), Err(AttachJobError::AlreadyConsumed)));
    assert_eq!(*observed.lock().unwrap(), vec![1, 4, 5, 6]);
}

#[test]
fn failed_attach_uses_the_job_up() {
    let observed = Arc::new(Mutex::new(Vec::<u8>::new()));
    let mut job = job(Err("disk full".into()), &observed);
    let error = job.execute_body().err().unwrap();
    assert_eq!(error.to_string(), "engate attach failed: snapshot failed: disk full");
    assert!(matches!(job.execute_body(), Err(AttachJobError::AlreadyConsumed)));
    assert!(observed.lock().unwrap().is_empty());
}

#[test]
fn taken_pair_is_attached_apart_from_the_job() {
    let observed = Arc::new(Mutex::new(Vec::<u8>::new()));
    let mut job = job(Ok(vec![1]), &observed);
    let pair = job.take();
    assert!(pair.is_some());
    assert!(job.take().is_none());
    assert!(AttachJob::attach_to_end(pair).is_ok());
    assert_eq!(*observed.lock().unwrap(), vec![1, 4, 5, 6]);
}

#[test]
fn identity_is_kept() {
    let observed = Arc::new(Mutex::new(Vec::<u8>::new()));
    let mut job = job(Ok(vec![]), &observed);
    let _ = job.execute_body();
    assert_eq!(job.scope(), JobScope::Workspace("ws".into()));
    assert_eq!(job.subject(), JobSubject::Pinned("test-attach".into()));
    assert_eq!(KIND, "engate.attach");
}

#[test]
fn handles_share_the_consumer() {
    let observed = Arc::new(Mutex::new(Vec::<u8>::new()));
    let mut job = job(Ok(vec![]), &observed);
    let handle: AttachedHandle<TestConsumer> = job.execute_body().ok().unwrap();
    let copy = handle.clone();
    assert!(Arc::ptr_eq(&handle.0, &copy.0));
    assert_eq!(Arc::strong_count(&handle.0), 2);
}
