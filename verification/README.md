# engate

A typed attach between a producer and a consumer, verified with Verus.

A consumer that subscribes to a running producer gets only what is emitted from
then on; what the producer did before stays unseen. An attach registers the live
stream, captures a snapshot, replays it into the consumer and then forwards live
items:

```rust
let attach = engate::Attach::builder().producer(p).consumer(c).build();
let (attach, history) = attach.subscribe()?;
let attach = attach.replay(history)?;
let consumer = attach.start_live().run();
```

Each phase is a type, so a step out of turn does not compile. The contracts add
what types cannot say. The snapshot is captured only once the stream has been
granted (`src/source.rs`). Every item that comes off the channel is on record
(`src/stream.rs`), none does before the attach is live, and each is consumed
before the next is taken. So the consumer observes the past and then everything
that came off the channel, in order (`src/lifecycle.rs`).

- `src/`: the library. `lifecycle`, `attach`, `source`, `stream`, `history`,
  `peer`, `phase` and `snapshot` are the attach; `job` runs one as a one-shot job; `attest` and
  `digest` fingerprint finished attaches; `point` describes attach points.
- `app/`: serialization, fixture files, error traits and the async job, in
  ordinary Rust.
- `tests/`: the library with real channels, bombs and hashes.

Taken on trust: receiving from a `std::sync::mpsc` channel
returns something, and `try_recv` does not panic; a `drop_bomb` is
armed until defused; `blake3` is a function of its input and prints as lower-case
hexadecimal; `shigoto_types` identifiers clone faithfully.
