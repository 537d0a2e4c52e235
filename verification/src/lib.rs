//! engate: a typed attach between a producer and a consumer.
//!
//! A producer that is already running holds state that a late subscriber never
//! sees on its live stream. An attach closes that gap: it registers the live
//! stream, captures the producer's state, replays that state into the consumer
//! and only then forwards live items. The four phases of an attach are types
//! ([`Spawned`], [`Subscribed`], [`Synced`], [`Live`]), so a step out of turn
//! does not compile; what each step does to the consumer stands in the
//! contracts.
//!
//! - [`phase`]: the phase markers.
//! - [`snapshot`]: what a consumer is bootstrapped from.
//! - [`peer`]: the two traits that users implement.
//! - [`channel`], [`bomb`]: what is taken on trust of channels and drop bombs.
//! - [`history`]: the snapshot in flight, which must not be dropped.
//! - [`port`]: a value that is put to use one call at a time.
//! - [`source`], [`held`]: a producer behind a port, with a log of what is asked
//!   of it, and the one phase in which it can be asked.
//! - [`stream`]: a live stream that keeps account of every item taken.
//! - [`lifecycle`]: the relations between the states of an attach, and its laws.
//! - [`attach`]: the attach itself and its builder.
//! - [`job`]: an attach as a one-shot job.
//! - [`digest`]: BLAKE3 digests and their hexadecimal text.
//! - [`attest`]: fingerprints of finished attaches.
//! - [`point`]: the declarative description of an attach point.

mod sealed;
pub mod attach;
pub mod attest;
pub mod bomb;
pub mod channel;
pub mod digest;
pub mod error;
pub mod held;
pub mod history;
pub mod job;
pub mod lifecycle;
pub mod peer;
pub mod phase;
pub mod point;
pub mod port;
pub mod snapshot;
pub mod source;
pub mod stream;

pub use attach::{Attach, AttachConfig, AttachConfigBuilder, AttachSpawned};
pub use attest::{Attestation, AttestationDrift, AttestationError, DriftComponent};
pub use error::AttachError;
pub use history::History;
pub use job::{AttachJob, AttachJobError, AttachedHandle};
pub use peer::{Consumer, Producer};
pub use phase::{Live, Phase, Spawned, Subscribed, Synced};
pub use point::{EngateSpec, TypePath};
pub use snapshot::Snapshot;
