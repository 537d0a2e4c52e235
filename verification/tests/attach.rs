//! The attach lifecycle with real channels.

use std::sync::mpsc;
use std::sync::{Arc, Mutex};

use engate::lifecycle::feed;
use engate::{Attach, AttachConfig, AttachError, AttachSpawned, Consumer, Producer};

type Tap = Arc<Mutex<Option<mpsc::Sender<u8>>>>;

/// A producer whose past is fixed and whose live items are pushed through a tap
/// that the test keeps.
struct VecProducer {
    past: Vec<u8>,
    tap: Tap,
}

impl VecProducer {
    fn new(past: Vec<u8>) -> (Self, Tap) {
        let tap: Tap = Arc::new(Mutex::new(None));
        (VecProducer { past, tap: tap.clone() }, tap)
    }
}

impl Producer for VecProducer {
    type Item = u8;
    type Snap = Vec<u8>;

    fn snapshot(&self) -> Result<Self::Snap, AttachError> {
        Ok(self.past.clone())
    }

    fn subscribe(&self) -> Result<mpsc::Receiver<Self::Item>, AttachError> {
        let (tx, rx) = mpsc::channel();
        *self.tap.lock().unwrap() = Some(tx);
        Ok(rx)
    }
}

#[derive(Default)]
struct VecConsumer(Arc<Mutex<Vec<u8>>>);

impl Consumer for VecConsumer {
    type Item = u8;
    type Snap = Vec<u8>;

    fn replay(&mut self, snapshot: Self::Snap) {
        self.0.lock().unwrap().extend(snapshot);
    }

    fn consume(&mut self, item: Self::Item) {
        self.0.lock().unwrap().push(item);
    }
}

fn flush_and_close(tap: &Tap, live: Vec<u8>) {
    let tx = tap.lock().unwrap().take();
    if let Some(tx) = tx {
        for b in live {
            let _ = tx.send(b);
        }
    }
}

/// A producer that fails where told, and notes the calls made to it.
struct Balky {
    subscribe_error: Option<String>,
    snapshot_error: Option<String>,
    calls: Arc<Mutex<Vec<&'static str>>>,
}

impl Producer for Balky {
    type Item = u8;
    type Snap = Vec<u8>;

    fn snapshot(&self) -> Result<Self::Snap, AttachError> {
        self.calls.lock().unwrap().push("snapshot");
        match &self.snapshot_error {
            Some(why) => Err(AttachError::SnapshotFailed(why.clone())),
            None => Ok(vec![7]),
        }
    }

    fn subscribe(&self) -> Result<mpsc::Receiver<Self::Item>, AttachError> {
        self.calls.lock().unwrap().push("subscribe");
        match &self.subscribe_error {
            Some(why) => Err(AttachError::SubscribeFailed(why.clone())),
            None => Ok(mpsc::channel().1),
        }
    }
}

fn balky(
    subscribe_error: Option<&str>,
    snapshot_error: Option<&str>,
) -> (Balky, Arc<Mutex<Vec<&'static str>>>) {
    let calls = Arc::new(Mutex::new(Vec::new()));
    let producer = Balky {
        subscribe_error: subscribe_error.map(String::from),
        snapshot_error: snapshot_error.map(String::from),
        calls: calls.clone(),
    };
    (producer, calls)
}

/// Attach, emit `post` on the live stream, close it, and return what was seen.
fn observe(pre: Vec<u8>, post: Vec<u8>) -> Vec<u8> {
    let observed = Arc::new(Mutex::new(Vec::<u8>::new()));
    let (prod, tap) = VecProducer::new(pre);
    let cons = VecConsumer(observed.clone());

    let attach = Attach::builder().producer(prod).consumer(cons).build();
    let (attach, history) = attach.subscribe().unwrap();
    let attach = attach.replay(history).unwrap();
    flush_and_close(&tap, post);
    let attach = attach.start_live();
    let _cons = attach.run();

    let seen = observed.lock().unwrap().clone();
    seen
}

#[test]
fn full_lifecycle_observes_snapshot_then_live() {
    let observed = Arc::new(Mutex::new(Vec::<u8>::new()));
    let (prod, tap) = VecProducer::new(vec![1, 2, 3]);
    let cons = VecConsumer(observed.clone());

    let attach = Attach::builder().producer(prod).consumer(cons).build();
    let (attach, history) = attach.subscribe().unwrap();
    let attach = attach.replay(history).unwrap();
    flush_and_close(&tap, vec![4, 5, 6]);
    let attach = attach.start_live();
    let _cons = attach.run();

    assert_eq!(*observed.lock().unwrap(), vec![1, 2, 3, 4, 5, 6]);
}

#[test]
#[should_panic(expected = "History dropped without being consumed")]
fn dropping_history_panics_via_dropbomb() {
    let (prod, _tap) = VecProducer::new(vec![]);
    let cons = VecConsumer::default();
    let attach = Attach::builder().producer(prod).consumer(cons).build();
    let (_attach, _history) = attach.subscribe().unwrap();
}

#[test]
fn history_size_bytes_reflects_snapshot() {
    let (prod, _tap) = VecProducer::new(vec![1, 2, 3, 4, 5]);
    let cons = VecConsumer::default();
    let attach = Attach::builder().producer(prod).consumer(cons).build();
    let (attach, history) = attach.subscribe().unwrap();
    assert_eq!(history.size_bytes(), 5);
    let _ = attach.replay(history);
}

#[test]
fn poll_one_returns_false_on_empty_channel() {
    let (prod, _tap) = VecProducer::new(vec![]);
    let cons = VecConsumer::default();
    let attach = Attach::builder().producer(prod).consumer(cons).build();
    let (attach, history) = attach.subscribe().unwrap();
    let attach = attach.replay(history).unwrap();
    let mut attach = attach.start_live();
    assert!(!attach.poll_one());
}

/// For any split of bytes into a past and a live part, the consumer observes the
/// past and then the live part, in order.
#[test]
fn observed_equals_pre_subscribe_then_post_subscribe() {
    let mut state: u32 = 0x9e37_79b9;
    let mut next = move || {
        state ^= state << 13;
        state ^= state >> 17;
        state ^= state << 5;
        state
    };
    for round in 0..256u32 {
        let (pre_len, post_len) = match round {
            0 => (0, 0),
            1 => (0, 255),
            2 => (255, 0),
            _ => (next() % 256, next() % 256),
        };
        let pre: Vec<u8> = (0..pre_len).map(|_| next() as u8).collect();
        let post: Vec<u8> = (0..post_len).map(|_| next() as u8).collect();
        let expected: Vec<u8> = pre.iter().chain(post.iter()).copied().collect();
        assert_eq!(observe(pre, post), expected);
    }
}

#[test]
fn into_inner_hands_out_the_snapshot_in_silence() {
    let (prod, _tap) = VecProducer::new(vec![9, 8, 7]);
    let attach = Attach::builder().producer(prod).consumer(VecConsumer::default()).build();
    let (_attach, history) = attach.subscribe().unwrap();
    assert_eq!(history.into_inner(), vec![9, 8, 7]);
}

#[test]
fn poll_one_forwards_one_item_at_a_time() {
    let observed = Arc::new(Mutex::new(Vec::<u8>::new()));
    let (prod, tap) = VecProducer::new(vec![1]);
    let attach = Attach::builder().consumer(VecConsumer(observed.clone())).producer(prod).build();
    let (attach, history) = attach.subscribe().unwrap();
    let attach = attach.replay(history).unwrap();
    flush_and_close(&tap, vec![2, 3, 4]);
    let mut attach = attach.start_live();
    assert_eq!(*observed.lock().unwrap(), vec![1]);
    assert!(attach.poll_one());
    assert_eq!(*observed.lock().unwrap(), vec![1, 2]);
    assert!(attach.poll_one());
    assert_eq!(*observed.lock().unwrap(), vec![1, 2, 3]);
    let _cons = attach.run();
    assert_eq!(*observed.lock().unwrap(), vec![1, 2, 3, 4]);
}

#[test]
fn poll_one_returns_false_on_closed_channel() {
    let (prod, tap) = VecProducer::new(vec![]);
    let attach = Attach::builder().producer(prod).consumer(VecConsumer::default()).build();
    let (attach, history) = attach.subscribe().unwrap();
    let mut attach = attach.replay(history).unwrap().start_live();
    flush_and_close(&tap, vec![5]);
    assert!(attach.poll_one());
    assert!(!attach.poll_one());
}

#[test]
fn stream_is_registered_before_the_snapshot_is_captured() {
    let (prod, calls) = balky(None, None);
    let attach = Attach::builder().producer(prod).consumer(VecConsumer::default()).build();
    let (_attach, history) = attach.subscribe().unwrap();
    assert_eq!(history.into_inner(), vec![7]);
    assert_eq!(*calls.lock().unwrap(), vec!["subscribe", "snapshot"]);
}

#[test]
fn failed_subscribe_is_reported_and_no_snapshot_taken() {
    let (prod, calls) = balky(Some("permission"), Some("disk full"));
    let attach = Attach::builder().producer(prod).consumer(VecConsumer::default()).build();
    let error = attach.subscribe().err().unwrap();
    assert_eq!(error.to_string(), "subscribe failed: permission");
    assert_eq!(*calls.lock().unwrap(), vec!["subscribe"]);
}

#[test]
fn failed_snapshot_is_reported() {
    let (prod, calls) = balky(None, Some("disk full"));
    let attach = Attach::builder().producer(prod).consumer(VecConsumer::default()).build();
    let error = attach.subscribe().err().unwrap();
    assert_eq!(error.to_string(), "snapshot failed: disk full");
    assert_eq!(*calls.lock().unwrap(), vec!["subscribe", "snapshot"]);
}

#[test]
fn config_becomes_an_attach() {
    let (producer, tap) = VecProducer::new(vec![1]);
    let observed = Arc::new(Mutex::new(Vec::<u8>::new()));
    let consumer = VecConsumer(observed.clone());
    let attach = AttachSpawned::from(AttachConfig { producer, consumer });
    let (attach, history) = attach.subscribe().unwrap();
    let attach = attach.replay(history).unwrap().start_live();
    flush_and_close(&tap, vec![2]);
    attach.run();
    assert_eq!(*observed.lock().unwrap(), vec![1, 2]);
}

#[test]
fn feeding_says_whether_there_was_an_item() {
    let observed = Arc::new(Mutex::new(Vec::<u8>::new()));
    let mut consumer = VecConsumer(observed.clone());
    assert!(feed(&mut consumer, Some(1)));
    assert!(!feed(&mut consumer, None));
    assert_eq!(*observed.lock().unwrap(), vec![1]);
}

/// An item that is in the snapshot and on the live stream is delivered twice.
#[test]
fn nothing_is_deduplicated() {
    assert_eq!(observe(vec![1, 2], vec![2, 3]), vec![1, 2, 2, 3]);
}

/// Items sent before the snapshot is replayed stay queued through every phase.
#[test]
fn queued_items_survive_every_phase() {
    let observed = Arc::new(Mutex::new(Vec::<u8>::new()));
    let (prod, tap) = VecProducer::new(vec![1]);
    let attach = Attach::builder().producer(prod).consumer(VecConsumer(observed.clone())).build();
    let (attach, history) = attach.subscribe().unwrap();
    flush_and_close(&tap, vec![2, 3]);
    assert!(observed.lock().unwrap().is_empty());
    let attach = attach.replay(history).unwrap();
    assert_eq!(*observed.lock().unwrap(), vec![1]);
    let attach = attach.start_live();
    assert_eq!(*observed.lock().unwrap(), vec![1]);
    attach.run();
    assert_eq!(*observed.lock().unwrap(), vec![1, 2, 3]);
}

#[test]
fn polling_takes_the_first_queued_item_each_time() {
    let observed = Arc::new(Mutex::new(Vec::<u8>::new()));
    let (prod, tap) = VecProducer::new(vec![]);
    let attach = Attach::builder().producer(prod).consumer(VecConsumer(observed.clone())).build();
    let (attach, history) = attach.subscribe().unwrap();
    let mut attach = attach.replay(history).unwrap().start_live();
    flush_and_close(&tap, vec![4, 5]);
    assert!(attach.poll_one());
    assert_eq!(*observed.lock().unwrap(), vec![4]);
    assert!(attach.poll_one());
    assert_eq!(*observed.lock().unwrap(), vec![4, 5]);
    assert!(!attach.poll_one());
    assert!(!attach.poll_one());
    assert_eq!(*observed.lock().unwrap(), vec![4, 5]);
}

/// Polling until nothing is queued and then running observes what running alone
/// does.
#[test]
fn polling_then_running_observes_the_same() {
    let observed = Arc::new(Mutex::new(Vec::<u8>::new()));
    let (prod, tap) = VecProducer::new(vec![1]);
    let attach = Attach::builder().producer(prod).consumer(VecConsumer(observed.clone())).build();
    let (attach, history) = attach.subscribe().unwrap();
    let mut attach = attach.replay(history).unwrap().start_live();
    tap.lock().unwrap().as_ref().unwrap().send(2).unwrap();
    while attach.poll_one() {}
    flush_and_close(&tap, vec![3, 4]);
    attach.run();
    assert_eq!(*observed.lock().unwrap(), observe(vec![1], vec![2, 3, 4]));
}

/// Poll, run, or poll a few times and then run: the same queued items are consumed
/// in the same order, each once.
#[test]
fn polling_running_and_both_consume_the_same() {
    let queued: Vec<u8> = vec![4, 5, 5, 6];
    let live = |observed: &Arc<Mutex<Vec<u8>>>| {
        let (prod, tap) = VecProducer::new(vec![1]);
        let cons = VecConsumer(observed.clone());
        let attach = Attach::builder().producer(prod).consumer(cons).build();
        let (attach, history) = attach.subscribe().unwrap();
        let attach = attach.replay(history).unwrap().start_live();
        flush_and_close(&tap, queued.clone());
        attach
    };

    let polled = Arc::new(Mutex::new(Vec::<u8>::new()));
    let mut attach = live(&polled);
    let mut hits = 0;
    while attach.poll_one() {
        hits += 1;
    }
    assert_eq!(hits, 4);

    let ran = Arc::new(Mutex::new(Vec::<u8>::new()));
    live(&ran).run();

    assert_eq!(*polled.lock().unwrap(), vec![1, 4, 5, 5, 6]);
    assert_eq!(*ran.lock().unwrap(), vec![1, 4, 5, 5, 6]);

    for k in 0..6 {
        let both = Arc::new(Mutex::new(Vec::<u8>::new()));
        let mut attach = live(&both);
        for i in 0..k {
            assert_eq!(attach.poll_one(), i < 4);
        }
        attach.run();
        assert_eq!(*both.lock().unwrap(), vec![1, 4, 5, 5, 6]);
    }
}

/// The ends can be set in either order, and neither is used before `subscribe`.
#[test]
fn builder_takes_the_ends_in_either_order() {
    for consumer_first in [false, true] {
        let observed = Arc::new(Mutex::new(Vec::<u8>::new()));
        let cons = VecConsumer(observed.clone());
        let (prod, calls) = balky(None, None);
        let attach = if consumer_first {
            Attach::builder().consumer(cons).producer(prod).build()
        } else {
            Attach::builder().producer(prod).consumer(cons).build()
        };
        assert!(calls.lock().unwrap().is_empty());
        assert!(observed.lock().unwrap().is_empty());
        let (attach, history) = attach.subscribe().unwrap();
        attach.replay(history).unwrap().start_live().run();
        assert_eq!(*calls.lock().unwrap(), vec!["subscribe", "snapshot"]);
        assert_eq!(*observed.lock().unwrap(), vec![7]);
    }
}

/// What is emitted between the registration of the stream and the capture of the
/// snapshot is observed twice, never lost.
#[test]
fn emission_between_subscribe_and_snapshot_is_not_lost() {
    struct Chatty {
        log: Mutex<Vec<u8>>,
        tx: Mutex<Option<mpsc::Sender<u8>>>,
    }
    impl Producer for Chatty {
        type Item = u8;
        type Snap = Vec<u8>;

        fn snapshot(&self) -> Result<Vec<u8>, AttachError> {
            let tx = self.tx.lock().unwrap().take().unwrap();
            self.log.lock().unwrap().push(3);
            tx.send(3).unwrap();
            let captured = self.log.lock().unwrap().clone();
            self.log.lock().unwrap().push(4);
            tx.send(4).unwrap();
            Ok(captured)
        }

        fn subscribe(&self) -> Result<mpsc::Receiver<u8>, AttachError> {
            let (tx, rx) = mpsc::channel();
            *self.tx.lock().unwrap() = Some(tx);
            Ok(rx)
        }
    }
    let observed = Arc::new(Mutex::new(Vec::<u8>::new()));
    let producer = Chatty { log: Mutex::new(vec![1, 2]), tx: Mutex::new(None) };
    let attach =
        Attach::builder().producer(producer).consumer(VecConsumer(observed.clone())).build();
    let (attach, history) = attach.subscribe().unwrap();
    attach.replay(history).unwrap().start_live().run();
    assert_eq!(*observed.lock().unwrap(), vec![1, 2, 3, 3, 4]);
}
