//! A structural adapter for duplex asynchronous channels.
//!
//! The crate fuses an independently owned, item-accepting *sink half* and an
//! item-producing *stream half* into one value, the [`duplex::SinkStream`]
//! combinator, which behaves as both a sink and a stream and can later be
//! decomposed back into its two original halves without loss or duplication.
//! The combinator holds no state of its own: every operation is a transparent
//! passthrough to the owned half it concerns, and every result and failure is
//! reported verbatim.
//!
//! Asynchrony is modelled cooperatively: each operation returns at once with a
//! tri-state answer ([`poll::StreamPoll`], [`poll::SinkPoll`]) — not ready yet,
//! ready with a value, or terminal — and the caller re-invokes it after the
//! next wake signal.

pub mod duplex;
pub mod endpoints;
pub mod halves;
pub mod poll;
pub mod trace;
