//! Concrete in-memory halves: a vector-backed sink and a vector-backed
//! stream. Both complete every request at once — they are never pending —
//! which makes them the simplest resources a combinator can fuse, and the
//! natural halves to drive in tests.

use vstd::prelude::*;
use crate::halves::{SinkHalf, StreamHalf};
use crate::poll::{SinkPoll, StreamPoll};

verus! {

/// A sink half backed by a vector: ready whenever it is open, never failing
/// a submission, keeping every accepted item in submission order. Once
/// closed it reports readiness as failed and accepts nothing further.
pub struct VecSink<I> {
    items: Vec<I>,
    closed: bool,
}

impl<I> VecSink<I> {
    /// The items accepted so far, in submission order.
    pub closed spec fn accepted(self) -> Seq<I> {
        self.items@
    }

    /// Whether a close request has completed.
    pub closed spec fn is_closed(self) -> bool {
        self.closed
    }

    /// An open sink that has accepted nothing yet.
    pub fn empty() -> (r: Self)
        ensures
            r.accepted() == Seq::<I>::empty(),
            !r.is_closed(),
    {
        VecSink { items: Vec::new(), closed: false }
    }

    /// Consume the sink and hand back everything it accepted, in order.
    pub fn into_items(self) -> (r: Vec<I>)
        ensures
            r@ == self.accepted(),
    {
        self.items
    }
}

impl<I> SinkHalf<I> for VecSink<I> {
    /// The sink never fails with a payload; a failed readiness request after
    /// close carries no further information.
    type Error = ();

    /// A readiness request changes nothing and answers ready exactly while
    /// the sink is open, failed once it is closed.
    open spec fn ready_rel(pre: Self, post: Self, r: SinkPoll<()>) -> bool {
        &&& post == pre
        &&& r == (if pre.is_closed() { SinkPoll::Failed(()) } else { SinkPoll::<()>::Ready })
    }

    /// Submissions are allowed while the sink is open.
    open spec fn may_send(self) -> bool {
        !self.is_closed()
    }

    /// A submission appends the item, leaves the sink open, and succeeds.
    open spec fn send_rel(pre: Self, post: Self, item: I, r: Result<(), ()>) -> bool {
        &&& post.accepted() == pre.accepted().push(item)
        &&& post.is_closed() == pre.is_closed()
        &&& r == Ok::<(), ()>(())
    }

    /// Accepted items are already durable, so a flush changes nothing and
    /// completes at once.
    open spec fn flush_rel(pre: Self, post: Self, r: SinkPoll<()>) -> bool {
        &&& post == pre
        &&& r == SinkPoll::<()>::Ready
    }

    /// A close keeps the accepted items, marks the sink closed, and
    /// completes at once.
    open spec fn close_rel(pre: Self, post: Self, r: SinkPoll<()>) -> bool {
        &&& post.accepted() == pre.accepted()
        &&& post.is_closed()
        &&& r == SinkPoll::<()>::Ready
    }

    fn poll_ready(&mut self) -> (r: SinkPoll<()>) {
        if self.closed {
            SinkPoll::Failed(())
        } else {
            SinkPoll::Ready
        }
    }

    fn start_send(&mut self, item: I) -> (r: Result<(), ()>) {
        self.items.push(item);
        Ok(())
    }

    fn poll_flush(&mut self) -> (r: SinkPoll<()>) {
        SinkPoll::Ready
    }

    fn poll_close(&mut self) -> (r: SinkPoll<()>) {
        self.closed = true;
        SinkPoll::Ready
    }
}

/// A stream half backed by a vector: yields its items front to back, then
/// reports the end of the sequence forever after. It is never pending.
pub struct VecStream<O> {
    items: Vec<O>,
}

impl<O> VecStream<O> {
    /// The items still to be produced, the front one next.
    pub closed spec fn remaining(self) -> Seq<O> {
        self.items@
    }

    /// A stream that will produce the given items, front first.
    pub fn from_items(items: Vec<O>) -> (r: Self)
        ensures
            r.remaining() == items@,
    {
        VecStream { items }
    }
}

impl<O> StreamHalf for VecStream<O> {
    type Item = O;

    /// A pull takes the front remaining item and answers with it; once
    /// nothing remains, it changes nothing and answers done.
    open spec fn next_rel(pre: Self, post: Self, r: StreamPoll<O>) -> bool {
        if pre.remaining().len() > 0 {
            &&& post.remaining() == pre.remaining().drop_first()
            &&& r == StreamPoll::Item(pre.remaining().first())
        } else {
            &&& post == pre
            &&& r == StreamPoll::<O>::Done
        }
    }

    fn poll_next(&mut self) -> (r: StreamPoll<O>) {
        if self.items.len() > 0 {
            let front = self.items.remove(0);
            proof {
                assert(self.items@ =~= old(self).items@.drop_first());
            }
            StreamPoll::Item(front)
        } else {
            StreamPoll::Done
        }
    }
}

} // verus!
