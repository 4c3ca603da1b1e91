//! Transparency of the combinator over whole runs of operations.
//!
//! A *run* is a sequence of states a resource went through together with the
//! answer each step returned. The lemmas here state the combinator's central
//! guarantee: a run of pulls on the fused value is, item for item and in
//! order, a run of the raw stream half driven directly, with the sink half
//! untouched throughout — and likewise for the sink-side requests with the
//! stream half untouched.

use vstd::prelude::*;
use crate::duplex::SinkStream;
use crate::halves::{SinkHalf, StreamHalf};
use crate::poll::{SinkPoll, StreamPoll};

verus! {

/// `states` are the values a stream-capable resource went through and
/// `results` what each pull answered: step `i` takes `states[i]` to
/// `states[i + 1]` under the resource's own pull relation.
pub open spec fn pull_run<U: StreamHalf>(states: Seq<U>, results: Seq<StreamPoll<U::Item>>) -> bool {
    &&& states.len() == results.len() + 1
    &&& forall|i: int| 0 <= i < results.len() ==>
            #[trigger] U::next_rel(states[i], states[i + 1], results[i])
}

/// One sink-side request together with the answer it returned.
pub enum SinkEvent<I, E> {
    /// A readiness request and its answer.
    Ready(SinkPoll<E>),
    /// A submission of an item and its immediate answer.
    Send(I, Result<(), E>),
    /// A flush request and its answer.
    Flush(SinkPoll<E>),
    /// A close request and its answer.
    Close(SinkPoll<E>),
}

/// One step of a sink-capable resource under its own relations; a
/// submission step also records that it was made from a state that allowed
/// one, as the caller contract demands.
pub open spec fn sink_step<I, S: SinkHalf<I>>(pre: S, post: S, ev: SinkEvent<I, S::Error>) -> bool {
    match ev {
        SinkEvent::Ready(r) => S::ready_rel(pre, post, r),
        SinkEvent::Send(item, r) => pre.may_send() && S::send_rel(pre, post, item, r),
        SinkEvent::Flush(r) => S::flush_rel(pre, post, r),
        SinkEvent::Close(r) => S::close_rel(pre, post, r),
    }
}

/// `states` are the values a sink-capable resource went through and
/// `events` the requests made of it with their answers: step `i` takes
/// `states[i]` to `states[i + 1]`.
pub open spec fn sink_run<I, S: SinkHalf<I>>(states: Seq<S>, events: Seq<SinkEvent<I, S::Error>>) -> bool {
    &&& states.len() == events.len() + 1
    &&& forall|i: int| 0 <= i < events.len() ==>
            #[trigger] sink_step(states[i], states[i + 1], events[i])
}

proof fn lemma_pull_keeps_sink<I, S: SinkHalf<I>, U: StreamHalf>(
    states: Seq<SinkStream<I, S, U>>,
    results: Seq<StreamPoll<U::Item>>,
    i: int,
)
    requires
        pull_run::<SinkStream<I, S, U>>(states, results),
        0 <= i < states.len(),
    ensures
        states[i].sink_half() == states[0].sink_half(),
    decreases i,
{
    if i > 0 {
        lemma_pull_keeps_sink(states, results, i - 1);
        let j = i - 1;
        assert(<SinkStream<I, S, U> as StreamHalf>::next_rel(states[j], states[j + 1], results[j]));
        assert(states[j + 1] == states[i]);
    }
}

/// Pull transparency: the answers a run of pulls drew from the fused value
/// are, item for item and in order, the answers of the very same run driven
/// against the raw stream half directly; and the sink half is untouched
/// through the whole run.
pub proof fn lemma_pull_run_transparent<I, S: SinkHalf<I>, U: StreamHalf>(
    states: Seq<SinkStream<I, S, U>>,
    results: Seq<StreamPoll<U::Item>>,
)
    requires
        pull_run::<SinkStream<I, S, U>>(states, results),
    ensures
        pull_run::<U>(states.map(|i: int, c: SinkStream<I, S, U>| c.stream_half()), results),
        forall|i: int| 0 <= i < states.len() ==>
            #[trigger] states[i].sink_half() == states[0].sink_half(),
{
    let projected = states.map(|i: int, c: SinkStream<I, S, U>| c.stream_half());
    assert forall|i: int| 0 <= i < results.len() implies
        #[trigger] U::next_rel(projected[i], projected[i + 1], results[i]) by {
        assert(<SinkStream<I, S, U> as StreamHalf>::next_rel(states[i], states[i + 1], results[i]));
    }
    assert forall|i: int| 0 <= i < states.len() implies
        #[trigger] states[i].sink_half() == states[0].sink_half() by {
        lemma_pull_keeps_sink(states, results, i);
    }
}

proof fn lemma_push_keeps_stream<I, S: SinkHalf<I>, U: StreamHalf>(
    states: Seq<SinkStream<I, S, U>>,
    events: Seq<SinkEvent<I, S::Error>>,
    i: int,
)
    requires
        sink_run::<I, SinkStream<I, S, U>>(states, events),
        0 <= i < states.len(),
    ensures
        states[i].stream_half() == states[0].stream_half(),
    decreases i,
{
    if i > 0 {
        lemma_push_keeps_stream(states, events, i - 1);
        let j = i - 1;
        assert(sink_step::<I, SinkStream<I, S, U>>(states[j], states[j + 1], events[j]));
        assert(states[j + 1] == states[i]);
    }
}

/// Push transparency: the answers and failures a run of readiness, submit,
/// flush, and close requests drew from the fused value are exactly those of
/// the very same run driven against the raw sink half directly; and the
/// stream half is untouched through the whole run.
pub proof fn lemma_push_run_transparent<I, S: SinkHalf<I>, U: StreamHalf>(
    states: Seq<SinkStream<I, S, U>>,
    events: Seq<SinkEvent<I, S::Error>>,
)
    requires
        sink_run::<I, SinkStream<I, S, U>>(states, events),
    ensures
        sink_run::<I, S>(states.map(|i: int, c: SinkStream<I, S, U>| c.sink_half()), events),
        forall|i: int| 0 <= i < states.len() ==>
            #[trigger] states[i].stream_half() == states[0].stream_half(),
{
    let projected = states.map(|i: int, c: SinkStream<I, S, U>| c.sink_half());
    assert forall|i: int| 0 <= i < events.len() implies
        #[trigger] sink_step::<I, S>(projected[i], projected[i + 1], events[i]) by {
        assert(sink_step::<I, SinkStream<I, S, U>>(states[i], states[i + 1], events[i]));
    }
    assert forall|i: int| 0 <= i < states.len() implies
        #[trigger] states[i].stream_half() == states[0].stream_half() by {
        lemma_push_keeps_stream(states, events, i);
    }
}

} // verus!
