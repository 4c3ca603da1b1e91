//! The duplex combinator: one value that owns a sink half and a stream half,
//! exposes the union of their capabilities, and can be split back apart.

use vstd::prelude::*;
use core::marker::PhantomData;
use crate::halves::{SinkHalf, StreamHalf};
use crate::poll::{SinkPoll, StreamPoll};

verus! {

/// Fuses one sink half of type `S`, accepting items of type `I`, and one
/// stream half of type `U` into a single value that is itself both a sink
/// and a stream.
///
/// The combinator is a pure ownership wrapper: it holds sole ownership of
/// both halves, keeps no buffer, counter, or flag of its own, and forwards
/// every operation verbatim to the half it concerns. It is consumed exactly
/// once — dropped, destroying both halves, or decomposed through
/// [`ItemSplit::split`], handing both halves back out.
pub struct SinkStream<I, S, U> {
    sink: S,
    stream: U,
    /// Zero-size marker pinning the accepted item type `I` as part of the
    /// combinator's identity; it carries no run-time state.
    item: PhantomData<I>,
}

impl<I, S, U> SinkStream<I, S, U> {
    /// The owned sink half, as an abstract value.
    pub closed spec fn sink_half(self) -> S {
        self.sink
    }

    /// The owned stream half, as an abstract value.
    pub closed spec fn stream_half(self) -> U {
        self.stream
    }
}

impl<I, S: SinkHalf<I>, U: StreamHalf> SinkStream<I, S, U> {
    /// Fuse the two halves. The combinator takes sole ownership of both,
    /// exactly as given: no validation is performed and no pair is refused.
    pub fn new(sink: S, stream: U) -> (r: Self)
        ensures
            r.sink_half() == sink,
            r.stream_half() == stream,
    {
        SinkStream { sink, stream, item: PhantomData }
    }
}

/// Capability of being decomposed back into constituent halves: a sink of
/// items `I` and a stream of items `O` that came from fusing a dedicated
/// sink-capable and a dedicated stream-capable resource.
pub trait ItemSplit<I, O>: SinkHalf<I> + StreamHalf<Item = O> {
    /// The type of the sink half handed back.
    type Sink: SinkHalf<I>;

    /// The type of the stream half handed back.
    type Stream: StreamHalf<Item = O>;

    /// The sink half that a split would hand back.
    spec fn sink_part(self) -> Self::Sink;

    /// The stream half that a split would hand back.
    spec fn stream_part(self) -> Self::Stream;

    /// Decompose the fused value into its two halves, unchanged: whatever
    /// state the halves had accumulated is exactly what comes back. Consumes
    /// the fused value, so no second split of the same value can ever occur.
    fn split(self) -> (r: (Self::Sink, Self::Stream))
        ensures
            r.0 == self.sink_part(),
            r.1 == self.stream_part(),
    ;
}

impl<I, S: SinkHalf<I>, U: StreamHalf> StreamHalf for SinkStream<I, S, U> {
    type Item = U::Item;

    /// Pure passthrough: one pull of the combinator is exactly one pull of
    /// the owned stream half, and the sink half is untouched.
    open spec fn next_rel(pre: Self, post: Self, r: StreamPoll<U::Item>) -> bool {
        &&& U::next_rel(pre.stream_half(), post.stream_half(), r)
        &&& post.sink_half() == pre.sink_half()
    }

    fn poll_next(&mut self) -> (r: StreamPoll<U::Item>) {
        self.stream.poll_next()
    }
}

impl<I, S: SinkHalf<I>, U: StreamHalf> SinkHalf<I> for SinkStream<I, S, U> {
    /// The combinator's failure type *is* the sink half's failure type.
    type Error = S::Error;

    /// Pure passthrough: one readiness request to the combinator is exactly
    /// one to the owned sink half, and the stream half is untouched.
    open spec fn ready_rel(pre: Self, post: Self, r: SinkPoll<S::Error>) -> bool {
        &&& S::ready_rel(pre.sink_half(), post.sink_half(), r)
        &&& post.stream_half() == pre.stream_half()
    }

    /// A submission is allowed exactly when the sink half allows one: the
    /// combinator neither checks nor enforces call ordering of its own.
    open spec fn may_send(self) -> bool {
        self.sink_half().may_send()
    }

    /// Pure passthrough: one submission to the combinator is exactly one to
    /// the owned sink half, and the stream half is untouched.
    open spec fn send_rel(pre: Self, post: Self, item: I, r: Result<(), S::Error>) -> bool {
        &&& S::send_rel(pre.sink_half(), post.sink_half(), item, r)
        &&& post.stream_half() == pre.stream_half()
    }

    /// Pure passthrough: one flush request to the combinator is exactly one
    /// to the owned sink half, and the stream half is untouched.
    open spec fn flush_rel(pre: Self, post: Self, r: SinkPoll<S::Error>) -> bool {
        &&& S::flush_rel(pre.sink_half(), post.sink_half(), r)
        &&& post.stream_half() == pre.stream_half()
    }

    /// Pure passthrough: one close request to the combinator is exactly one
    /// to the owned sink half, and the stream half is untouched.
    open spec fn close_rel(pre: Self, post: Self, r: SinkPoll<S::Error>) -> bool {
        &&& S::close_rel(pre.sink_half(), post.sink_half(), r)
        &&& post.stream_half() == pre.stream_half()
    }

    fn poll_ready(&mut self) -> (r: SinkPoll<S::Error>) {
        self.sink.poll_ready()
    }

    fn start_send(&mut self, item: I) -> (r: Result<(), S::Error>) {
        self.sink.start_send(item)
    }

    fn poll_flush(&mut self) -> (r: SinkPoll<S::Error>) {
        self.sink.poll_flush()
    }

    fn poll_close(&mut self) -> (r: SinkPoll<S::Error>) {
        self.sink.poll_close()
    }
}

impl<I, S: SinkHalf<I>, U: StreamHalf> ItemSplit<I, U::Item> for SinkStream<I, S, U> {
    type Sink = S;
    type Stream = U;

    open spec fn sink_part(self) -> S {
        self.sink_half()
    }

    open spec fn stream_part(self) -> U {
        self.stream_half()
    }

    fn split(self) -> (r: (S, U)) {
        (self.sink, self.stream)
    }
}

/// Fusing two halves and at once splitting the result hands back the
/// identical pair: what [`SinkStream::new`] guarantees of its result is
/// exactly what [`ItemSplit::split`] guarantees to return of it, with no
/// mutation in between.
pub proof fn lemma_fuse_then_split<I, S: SinkHalf<I>, U: StreamHalf>(
    sink: S,
    stream: U,
    fused: SinkStream<I, S, U>,
)
    requires
        fused.sink_half() == sink,
        fused.stream_half() == stream,
    ensures
        (fused.sink_part(), fused.stream_part()) == (sink, stream),
{
}

/// The combinator holds no state beyond its two halves: two combinators
/// whose halves are equal are themselves equal, so decomposition loses
/// nothing that fusion did not store.
pub proof fn lemma_no_hidden_state<I, S, U>(a: SinkStream<I, S, U>, b: SinkStream<I, S, U>)
    requires
        a.sink_half() == b.sink_half(),
        a.stream_half() == b.stream_half(),
    ensures
        a == b,
{
}

} // verus!
