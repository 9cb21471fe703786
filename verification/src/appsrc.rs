//! The appsrc push worker: the decisions of the blocking thread that
//! feeds a client's app source, and the bounded handoff queue between
//! the async side and that thread.

use vstd::prelude::*;

use crate::frame::{FrameModel, StampedFrame};
use crate::gate::{gate_output, lemma_keyframe_start};

verus! {

/// What a worker starting in the given keyframe-wait state pushes
/// out of `frames`: exactly what a keyframe gate in the opposite
/// state would pass, since both drop everything ahead of the first
/// keyframe and then pass everything.
pub open spec fn worker_output(frames: Seq<FrameModel>, wait_for_iframe: bool) -> Seq<
    FrameModel,
> {
    gate_output(frames, !wait_for_iframe)
}

/// Keyframe start at the push boundary: a fresh worker never pushes
/// anything into the app source ahead of a keyframe.
pub proof fn lemma_first_push_is_keyframe(frames: Seq<FrameModel>)
    ensures
        worker_output(frames, true).len() > 0 ==> worker_output(frames, true)[0].keyframe,
{
    lemma_keyframe_start(frames);
}

/// Depth of the handoff queue to the blocking worker: fifteen
/// seconds of video with audio at 30 fps fits comfortably.
pub const HANDOFF_DEPTH: usize = 2000;

/// What `push_buffer` came back with.
#[derive(Clone, Copy, PartialEq, Eq, Structural, Debug)]
pub enum PushOutcome {
    /// The buffer was taken.
    Accepted,
    /// The element is flushing; the frame is lost downstream.
    Flushing,
    /// A fatal error; the worker must stop.
    Failed,
}

/// Hysteresis on the app source's fill level: leave `Paused` once
/// two thirds full, return to it once down to one third, keeping
/// about half the buffer for jitter absorption.
pub open spec fn spec_next_paused(paused: bool, fill: u64, max: u64) -> bool {
    if fill >= max * 2 / 3 && paused {
        false
    } else if fill <= max / 3 && !paused {
        true
    } else {
        paused
    }
}

/// Per-appsrc worker state.
pub struct PushWorker {
    /// Smallest timestamp seen so far; presentation times are
    /// relative to it. Starts at `u64::MAX`.
    pub ts_base: u64,
    /// Drop everything until a keyframe; set at start and re-armed
    /// whenever the element flushed a frame away.
    pub wait_for_iframe: bool,
    /// Whether the element currently sits in `Paused`.
    pub paused: bool,
}

impl PushWorker {
    /// A fresh worker: paused, waiting for a keyframe, no timestamp
    /// base yet.
    pub fn new() -> (r: Self)
        ensures
            r.ts_base == u64::MAX,
            r.wait_for_iframe,
            r.paused,
    {
        PushWorker { ts_base: u64::MAX, wait_for_iframe: true, paused: true }
    }

    /// Decides one frame ahead of the push: discards it while a
    /// keyframe is awaited, otherwise lowers the timestamp base to
    /// cover it and returns the presentation (and decode) timestamp
    /// relative to that base, in milliseconds.
    pub fn accept_frame(&mut self, keyframe: bool, ts: u64) -> (r: Option<u64>)
        ensures
            final(self).paused == old(self).paused,
            old(self).wait_for_iframe && !keyframe ==> r is None && *final(self) == *old(self),
            !(old(self).wait_for_iframe && !keyframe) ==> {
                &&& !final(self).wait_for_iframe
                &&& final(self).ts_base == (if ts < old(self).ts_base {
                    ts
                } else {
                    old(self).ts_base
                })
                &&& r == Some((ts - final(self).ts_base) as u64)
            },
    {
        if self.wait_for_iframe && !keyframe {
            return None;
        }
        self.wait_for_iframe = false;
        if ts < self.ts_base {
            self.ts_base = ts;
        }
        Some(ts - self.ts_base)
    }

    /// Digests the outcome of one `push_buffer`. Returns whether the
    /// worker goes on: a flushed frame only re-arms the keyframe
    /// wait, a fatal error stops the worker.
    pub fn after_push(&mut self, outcome: PushOutcome) -> (r: bool)
        ensures
            final(self).ts_base == old(self).ts_base,
            final(self).paused == old(self).paused,
            outcome is Accepted ==> r && final(self).wait_for_iframe == old(
                self,
            ).wait_for_iframe,
            outcome is Flushing ==> r && final(self).wait_for_iframe,
            outcome is Failed ==> !r && *final(self) == *old(self),
    {
        match outcome {
            PushOutcome::Accepted => true,
            PushOutcome::Flushing => {
                self.wait_for_iframe = true;
                true
            },
            PushOutcome::Failed => false,
        }
    }

    /// Adjusts the element's playback state from its fill level,
    /// with the two-thirds/one-third hysteresis.
    pub fn update_state(&mut self, fill: u64, max: u64)
        requires
            max <= u64::MAX / 2,
        ensures
            final(self).ts_base == old(self).ts_base,
            final(self).wait_for_iframe == old(self).wait_for_iframe,
            final(self).paused == spec_next_paused(old(self).paused, fill, max),
    {
        if fill >= max * 2 / 3 && self.paused {
            self.paused = false;
        } else if fill <= max / 3 && !self.paused {
            self.paused = true;
        }
    }
}

/// Milliseconds to microseconds, for stamping PTS and DTS on the
/// outgoing buffer.
pub fn pts_useconds(pts_ms: u64) -> (r: u64)
    requires
        pts_ms <= u64::MAX / 1000,
    ensures
        r == pts_ms * 1000,
{
    pts_ms * 1000
}

/// Whether a pool for exactly `size` bytes exists already.
pub open spec fn has_pool(sizes: Seq<usize>, size: usize) -> bool {
    exists|i: int| 0 <= i < sizes.len() && sizes[i] == size
}

/// The worker's buffer pools, keyed by exact payload size: encoder
/// output clusters around few sizes once padded, so one pool per
/// size amortizes allocation. Pools are created lazily; this table
/// decides when a new one is needed.
pub struct PoolTable {
    /// The sizes a pool exists for, in creation order, no size
    /// twice.
    pub sizes: Vec<usize>,
}

impl PoolTable {
    /// No size appears twice.
    pub open spec fn wf(&self) -> bool {
        forall|i: int, j: int|
            0 <= i < j < self.sizes@.len() ==> self.sizes@[i] != self.sizes@[j]
    }

    /// No pools yet.
    pub fn new() -> (r: Self)
        ensures
            r.wf(),
            r.sizes@.len() == 0,
    {
        PoolTable { sizes: Vec::new() }
    }

    /// The pool to copy a payload of `size` bytes into: the
    /// existing one, or a freshly recorded one when this size shows
    /// up for the first time. Returns its slot and whether it had
    /// to be created.
    pub fn lookup_or_insert(&mut self, size: usize) -> (r: (usize, bool))
        requires
            old(self).wf(),
            old(self).sizes@.len() < usize::MAX,
        ensures
            final(self).wf(),
            r.1 == !has_pool(old(self).sizes@, size),
            !r.1 ==> final(self).sizes@ == old(self).sizes@,
            r.1 ==> final(self).sizes@ == old(self).sizes@.push(size),
            r.0 < final(self).sizes@.len() && final(self).sizes@[r.0 as int] == size,
    {
        let mut i: usize = 0;
        while i < self.sizes.len()
            invariant
                *self == *old(self),
                old(self).wf(),
                i <= self.sizes@.len(),
                forall|j: int| 0 <= j < i ==> self.sizes@[j] != size,
            decreases self.sizes@.len() - i,
        {
            if self.sizes[i] == size {
                return (i, false);
            }
            i = i + 1;
        }
        let slot = self.sizes.len();
        self.sizes.push(size);
        proof {
            assert(self.sizes@[slot as int] == size);
        }
        (slot, true)
    }
}

/// The bounded handoff queue between the async producer and the
/// blocking worker. A full queue refuses the frame, which is what
/// makes the producer block instead of outrunning the worker.
pub struct FrameQueue {
    pub items: Vec<StampedFrame>,
    pub cap: usize,
}

impl FrameQueue {
    /// Never holds more than its depth.
    pub open spec fn wf(&self) -> bool {
        &&& self.cap >= 1
        &&& self.items@.len() <= self.cap
    }

    /// An empty queue of the given depth.
    pub fn new(cap: usize) -> (r: Self)
        requires
            cap >= 1,
        ensures
            r.wf(),
            r.cap == cap,
            r.items@.len() == 0,
    {
        FrameQueue { items: Vec::new(), cap }
    }

    /// How many frames sit in the queue.
    pub fn len(&self) -> (r: usize)
        ensures
            r == self.items@.len(),
    {
        self.items.len()
    }

    /// Offers a frame: taken when there is room, handed back when
    /// the queue is full.
    pub fn try_send(&mut self, f: StampedFrame) -> (r: Option<StampedFrame>)
        requires
            old(self).wf(),
        ensures
            final(self).wf(),
            final(self).cap == old(self).cap,
            old(self).items@.len() < old(self).cap ==> r is None && final(self).items@ == old(
                self,
            ).items@.push(f),
            old(self).items@.len() == old(self).cap ==> r == Some(f) && final(self).items@ == old(
                self,
            ).items@,
    {
        if self.items.len() < self.cap {
            self.items.push(f);
            None
        } else {
            Some(f)
        }
    }

    /// Takes the oldest frame, if any.
    pub fn recv(&mut self) -> (r: Option<StampedFrame>)
        requires
            old(self).wf(),
        ensures
            final(self).wf(),
            final(self).cap == old(self).cap,
            old(self).items@.len() == 0 ==> r is None && final(self).items@ == old(self).items@,
            old(self).items@.len() > 0 ==> {
                &&& r == Some(old(self).items@[0])
                &&& final(self).items@ == old(self).items@.drop_first()
            },
    {
        if self.items.len() > 0 {
            let f = self.items.remove(0);
            proof {
                assert(self.items@ =~= old(self).items@.drop_first());
            }
            Some(f)
        } else {
            None
        }
    }
}

} // verus!
