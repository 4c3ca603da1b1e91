//! Tri-state answers of cooperative, poll-style operations.
//!
//! Every asynchronous operation in this crate returns at once with one of
//! these answers; an operation that answered "pending" must be re-invoked by
//! the caller after the next wake signal.

use vstd::prelude::*;

verus! {

/// The answer of one pull request made to a stream half.
#[derive(Debug, PartialEq, Eq)]
pub enum StreamPoll<O> {
    /// No item yet; ask again after the next wake signal.
    Pending,
    /// The half produced this item.
    Item(O),
    /// The sequence is exhausted; no more items will ever be produced.
    Done,
}

/// The answer of one readiness, flush, or close request made to a sink half.
#[derive(Debug, PartialEq, Eq)]
pub enum SinkPoll<E> {
    /// Not done yet; ask again after the next wake signal.
    Pending,
    /// The request completed.
    Ready,
    /// The underlying resource reports this failure.
    Failed(E),
}

} // verus!
