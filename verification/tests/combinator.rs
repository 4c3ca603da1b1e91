use std::rc::Rc;

use sink_stream::duplex::{ItemSplit, SinkStream};
use sink_stream::endpoints::{VecSink, VecStream};
use sink_stream::halves::{SinkHalf, StreamHalf};
use sink_stream::poll::{SinkPoll, StreamPoll};

#[test]
fn fuse_then_split_returns_pair() {
    let mut sink = VecSink::empty();
    assert_eq!(sink.start_send(41), Ok(()));
    assert_eq!(sink.start_send(42), Ok(()));
    let stream = VecStream::from_items(vec![9u64]);

    let combined = SinkStream::new(sink, stream);
    let (sink_back, mut stream_back) = combined.split();

    assert_eq!(sink_back.into_items(), vec![41u64, 42]);
    assert_eq!(stream_back.poll_next(), StreamPoll::Item(9u64));
    assert_eq!(stream_back.poll_next(), StreamPoll::Done);
}

#[test]
fn pull_matches_raw_stream() {
    let sink = VecSink::<u64>::empty();
    let stream = VecStream::from_items(vec![1u64, 2, 3]);
    let mut combined = SinkStream::new(sink, stream);
    let mut raw = VecStream::from_items(vec![1u64, 2, 3]);

    for _ in 0..4 {
        assert_eq!(combined.poll_next(), raw.poll_next());
    }
}

#[test]
fn four_pulls_yield_items_then_done() {
    let sink = VecSink::<u64>::empty();
    let stream = VecStream::from_items(vec![1u64, 2, 3]);
    let mut combined = SinkStream::new(sink, stream);

    assert_eq!(combined.poll_next(), StreamPoll::Item(1u64));
    assert_eq!(combined.poll_next(), StreamPoll::Item(2u64));
    assert_eq!(combined.poll_next(), StreamPoll::Item(3u64));
    assert_eq!(combined.poll_next(), StreamPoll::Done);
}

#[test]
fn push_matches_raw_sink() {
    let stream = VecStream::from_items(vec![0u64]);
    let mut combined = SinkStream::new(VecSink::empty(), stream);
    let mut raw = VecSink::empty();

    assert_eq!(combined.poll_ready(), raw.poll_ready());
    assert_eq!(combined.start_send(10u64), raw.start_send(10u64));
    assert_eq!(combined.start_send(20u64), raw.start_send(20u64));
    assert_eq!(combined.poll_flush(), raw.poll_flush());
    assert_eq!(combined.poll_close(), raw.poll_close());
    assert_eq!(combined.poll_ready(), raw.poll_ready());

    let (sink_back, _stream_back) = combined.split();
    assert_eq!(sink_back.into_items(), raw.into_items());
}

#[test]
fn sink_results_pass_through_verbatim() {
    let stream = VecStream::from_items(Vec::<u64>::new());
    let mut combined = SinkStream::new(VecSink::empty(), stream);

    assert_eq!(combined.poll_ready(), SinkPoll::Ready);
    assert_eq!(combined.start_send(7u64), Ok(()));
    assert_eq!(combined.poll_flush(), SinkPoll::Ready);
    assert_eq!(combined.poll_close(), SinkPoll::Ready);
    assert_eq!(combined.poll_ready(), SinkPoll::Failed(()));
}

#[test]
fn submit_without_readiness_is_not_checked() {
    let stream = VecStream::from_items(Vec::<u64>::new());
    let mut combined = SinkStream::new(VecSink::empty(), stream);

    // No readiness request was made: the combinator itself neither checks
    // nor enforces call ordering, so the submission reaches the sink half.
    assert_eq!(combined.start_send(5u64), Ok(()));
    let (sink_back, _stream_back) = combined.split();
    assert_eq!(sink_back.into_items(), vec![5u64]);
}

#[test]
fn drop_mid_flush_releases_both_halves() {
    let shared = Rc::new(5i32);

    let mut sink = VecSink::empty();
    assert_eq!(sink.start_send(Rc::clone(&shared)), Ok(()));
    let stream = VecStream::from_items(vec![Rc::clone(&shared)]);
    assert_eq!(Rc::strong_count(&shared), 3);

    let mut combined = SinkStream::new(sink, stream);
    assert_eq!(combined.poll_flush(), SinkPoll::Ready);
    // Drop before the close request ever completes: both halves go down
    // with the combinator, each exactly once.
    drop(combined);
    assert_eq!(Rc::strong_count(&shared), 1);
}

#[test]
fn split_halves_drive_independently() {
    let mut sink = VecSink::empty();
    assert_eq!(sink.start_send(1u64), Ok(()));
    let stream = VecStream::from_items(vec![8u64, 9]);

    let combined = SinkStream::new(sink, stream);
    let (mut sink_back, mut stream_back) = combined.split();

    // Unflushed sink state and partially consumed stream state survive the
    // round trip; the two halves answer on their own from here on.
    assert_eq!(stream_back.poll_next(), StreamPoll::Item(8u64));
    assert_eq!(sink_back.poll_ready(), SinkPoll::Ready);
    assert_eq!(sink_back.start_send(2u64), Ok(()));
    assert_eq!(stream_back.poll_next(), StreamPoll::Item(9u64));
    assert_eq!(stream_back.poll_next(), StreamPoll::Done);
    assert_eq!(sink_back.into_items(), vec![1u64, 2]);
}

#[test]
fn empty_stream_reports_done_at_once() {
    let mut stream = VecStream::from_items(Vec::<u64>::new());
    assert_eq!(stream.poll_next(), StreamPoll::Done);
    assert_eq!(stream.poll_next(), StreamPoll::Done);
}

#[test]
fn empty_sink_accepts_in_order() {
    let mut sink = VecSink::empty();
    assert_eq!(sink.poll_ready(), SinkPoll::Ready);
    assert_eq!(sink.start_send(3u64), Ok(()));
    assert_eq!(sink.start_send(1u64), Ok(()));
    assert_eq!(sink.start_send(2u64), Ok(()));
    assert_eq!(sink.into_items(), vec![3u64, 1, 2]);
}
