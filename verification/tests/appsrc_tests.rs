use restream::appsrc::{pts_useconds, FrameQueue, PushOutcome, PushWorker, HANDOFF_DEPTH};
use restream::frame::StampedFrame;

fn queued_frame(ts: u64, keyframe: bool) -> StampedFrame {
    StampedFrame {
        payload: vec![0; 8],
        ts,
        keyframe,
    }
}

#[test]
fn worker_first_pushed_frame_is_keyframe() {
    let mut worker = PushWorker::new();
    assert!(worker.accept_frame(false, 0).is_none());
    assert!(worker.accept_frame(false, 33).is_none());
    assert_eq!(worker.accept_frame(true, 66), Some(0));
    // From then on delta frames pass too.
    assert_eq!(worker.accept_frame(false, 99), Some(33));
}

#[test]
fn worker_timestamps_relative_to_base() {
    let mut worker = PushWorker::new();
    assert_eq!(worker.accept_frame(true, 1000), Some(0));
    assert_eq!(worker.accept_frame(false, 1033), Some(33));
    // A smaller timestamp lowers the base rather than underflowing.
    assert_eq!(worker.accept_frame(false, 900), Some(0));
    assert_eq!(worker.accept_frame(false, 1000), Some(100));
}

#[test]
fn flushing_rearms_keyframe_wait() {
    let mut worker = PushWorker::new();
    assert_eq!(worker.accept_frame(true, 0), Some(0));
    assert!(worker.after_push(PushOutcome::Accepted));
    // The element flushed a frame away: the next delta frames are
    // discarded until an IDR arrives.
    assert!(worker.after_push(PushOutcome::Flushing));
    assert!(worker.accept_frame(false, 33).is_none());
    assert!(worker.accept_frame(false, 66).is_none());
    assert_eq!(worker.accept_frame(true, 99), Some(99));
}

#[test]
fn fatal_error_stops_worker() {
    let mut worker = PushWorker::new();
    assert!(!worker.after_push(PushOutcome::Failed));
}

#[test]
fn hysteresis_play_pause() {
    let mut worker = PushWorker::new();
    assert!(worker.paused);
    // Below two thirds: stays paused.
    worker.update_state(500, 900);
    assert!(worker.paused);
    // At two thirds of max: starts playing.
    worker.update_state(600, 900);
    assert!(!worker.paused);
    // Half full: keeps playing (hysteresis).
    worker.update_state(450, 900);
    assert!(!worker.paused);
    // Down to one third: pauses again.
    worker.update_state(300, 900);
    assert!(worker.paused);
}

#[test]
fn pts_converted_to_microseconds() {
    assert_eq!(pts_useconds(0), 0);
    assert_eq!(pts_useconds(33), 33_000);
}

#[test]
fn handoff_queue_bounds_backpressure() {
    // A producer with 3000 frames against a slower consumer: the
    // queue never holds more than its depth; the producer blocks
    // (is refused) instead, and every frame still arrives in order.
    let mut queue = FrameQueue::new(HANDOFF_DEPTH);
    let mut delivered = Vec::new();
    let mut next: u64 = 0;
    while next < 3000 {
        match queue.try_send(queued_frame(next, next == 0)) {
            None => {
                next += 1;
            }
            Some(_refused) => {
                // Queue full: the worker drains one frame first.
                assert_eq!(queue.len(), HANDOFF_DEPTH);
                let f = queue.recv().unwrap();
                delivered.push(f.ts);
            }
        }
        assert!(queue.len() <= HANDOFF_DEPTH);
    }
    while let Some(f) = queue.recv() {
        delivered.push(f.ts);
    }
    assert_eq!(delivered.len(), 3000);
    assert!(delivered.windows(2).all(|w| w[0] < w[1]));
}

#[test]
fn pool_table_one_pool_per_size() {
    let mut pools = restream::appsrc::PoolTable::new();
    // First frame of a size creates its pool...
    assert_eq!(pools.lookup_or_insert(4096), (0, true));
    assert_eq!(pools.lookup_or_insert(8192), (1, true));
    // ...later frames of the same size reuse it.
    assert_eq!(pools.lookup_or_insert(4096), (0, false));
    assert_eq!(pools.lookup_or_insert(8192), (1, false));
    assert_eq!(pools.sizes, vec![4096, 8192]);
}

#[test]
fn queue_recv_is_fifo() {
    let mut queue = FrameQueue::new(4);
    assert!(queue.recv().is_none());
    assert!(queue.try_send(queued_frame(1, true)).is_none());
    assert!(queue.try_send(queued_frame(2, false)).is_none());
    assert_eq!(queue.recv().unwrap().ts, 1);
    assert_eq!(queue.recv().unwrap().ts, 2);
    assert!(queue.recv().is_none());
}
