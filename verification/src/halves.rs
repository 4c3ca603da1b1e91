//! The two capability interfaces of a duplex channel.
//!
//! A *sink half* accepts items asynchronously, with distinct readiness,
//! submission, flush, and close requests; a *stream half* produces a sequence
//! of items, terminating when exhausted. Each executable operation is
//! specified by a transition relation over the resource's abstract state: a
//! caller learns exactly that one step of the implementor's own relation took
//! place. Nothing here constrains what a particular resource does — the
//! relations belong to the implementor, and the combinator in [`crate::duplex`]
//! forwards them verbatim.

use vstd::prelude::*;
use crate::poll::{SinkPoll, StreamPoll};

verus! {

/// A sink-capable resource: asynchronously accepts items of type `I`.
pub trait SinkHalf<I>: Sized {
    /// The failure condition this resource reports; the crate defines none of
    /// its own.
    type Error;

    /// One readiness request: how it relates the state before, the state
    /// after, and the answer.
    spec fn ready_rel(pre: Self, post: Self, r: SinkPoll<Self::Error>) -> bool;

    /// The states in which a submission is allowed: readiness was just
    /// confirmed. Submitting outside such a state is a caller contract
    /// violation, checked at the call site and never at run time.
    spec fn may_send(self) -> bool;

    /// One submission: how it relates the state before, the state after, the
    /// item handed over, and the immediate answer.
    spec fn send_rel(pre: Self, post: Self, item: I, r: Result<(), Self::Error>) -> bool;

    /// One flush request: how it relates the state before, the state after,
    /// and the answer.
    spec fn flush_rel(pre: Self, post: Self, r: SinkPoll<Self::Error>) -> bool;

    /// One close request: how it relates the state before, the state after,
    /// and the answer.
    spec fn close_rel(pre: Self, post: Self, r: SinkPoll<Self::Error>) -> bool;

    /// Ask whether the resource can accept an item now. An answer of
    /// [`SinkPoll::Ready`] confirms readiness; any other answer means the
    /// caller must not submit yet.
    fn poll_ready(&mut self) -> (r: SinkPoll<Self::Error>)
        ensures
            Self::ready_rel(*old(self), *final(self), r),
            r is Ready ==> final(self).may_send(),
    ;

    /// Hand one item over; the resource takes ownership of it. May fail
    /// immediately if the resource rejects the item.
    fn start_send(&mut self, item: I) -> (r: Result<(), Self::Error>)
        requires
            old(self).may_send(),
        ensures
            Self::send_rel(*old(self), *final(self), item, r),
    ;

    /// Ask that every previously submitted item be handed off downstream;
    /// answers [`SinkPoll::Pending`] until that is done.
    fn poll_flush(&mut self) -> (r: SinkPoll<Self::Error>)
        ensures
            Self::flush_rel(*old(self), *final(self), r),
    ;

    /// Ask that the resource shut down, no further items to come; answers
    /// [`SinkPoll::Pending`] until teardown completes.
    fn poll_close(&mut self) -> (r: SinkPoll<Self::Error>)
        ensures
            Self::close_rel(*old(self), *final(self), r),
    ;
}

/// A stream-capable resource: asynchronously produces a sequence of items,
/// finite or infinite, not restartable once exhausted.
pub trait StreamHalf: Sized {
    /// The type of the items produced.
    type Item;

    /// One pull request: how it relates the state before, the state after,
    /// and what came out.
    spec fn next_rel(pre: Self, post: Self, r: StreamPoll<Self::Item>) -> bool;

    /// Ask for the next produced item.
    fn poll_next(&mut self) -> (r: StreamPoll<Self::Item>)
        ensures
            Self::next_rel(*old(self), *final(self), r),
    ;
}

} // verus!
