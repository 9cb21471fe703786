//! The per-stream supervisor: which watcher tasks one iteration
//! spawns, what makes the iteration restart, and the structured
//! cancellation that tears every spawned task down before the next
//! iteration begins.

use vstd::prelude::*;

use crate::config::{string_eq, PauseConfig};
use crate::frame::{bytes_eq, spec_stream_config_eq, StreamConfig};
use crate::pause::spec_elapsed;

verus! {

/// How long activation is held after an iteration starts, to prime
/// the frame history, in milliseconds.
pub const WARMUP_MS: u64 = 30_000;

/// How long after video is detected the supervisor still waits for
/// an audio format before going on without one, in milliseconds.
pub const AUD_FORMAT_WAIT_MS: u64 = 1_000;

/// Whether a window starting at `start_ms` has passed by `now_ms`.
pub fn timer_expired(now_ms: u64, start_ms: u64, window_ms: u64) -> (r: bool)
    ensures
        r == (spec_elapsed(now_ms, start_ms) >= window_ms),
{
    let elapsed = if now_ms >= start_ms {
        now_ms - start_ms
    } else {
        0
    };
    elapsed >= window_ms
}

/// The tasks one supervisor iteration spawns, besides the stream
/// run itself.
#[derive(Clone, Copy, PartialEq, Eq, Structural, Debug)]
pub struct SpawnPlan {
    /// Watches the client counter; only when pausing on disconnect.
    pub client_watcher: bool,
    /// Watches motion reports; only when pausing on motion.
    pub motion_watcher: bool,
    /// Watches push notifications; only when pausing on motion.
    pub push_watcher: bool,
    /// Drives the activation permit from the affectors; only when
    /// the controller is used at all.
    pub reducer: bool,
    /// Holds activation for the warm-up window; always.
    pub warmup: bool,
    /// Reports the client count; always.
    pub client_logger: bool,
}

/// Decides the watcher topology for one iteration from the pause
/// configuration. With neither toggler set, no affector watcher and
/// no reducer run and the stream simply stays on.
pub fn spawn_plan(pause: &PauseConfig) -> (r: SpawnPlan)
    ensures
        r.client_watcher == pause.on_disconnect,
        r.motion_watcher == pause.on_motion,
        r.push_watcher == pause.on_motion,
        r.reducer == (pause.on_motion || pause.on_disconnect),
        r.warmup,
        r.client_logger,
{
    SpawnPlan {
        client_watcher: pause.on_disconnect,
        motion_watcher: pause.on_motion,
        push_watcher: pause.on_motion,
        reducer: pause.on_motion || pause.on_disconnect,
        warmup: true,
        client_logger: true,
    }
}

/// Compared by value: any stream parameter change, the opaque codec
/// parameters included, makes the iteration rebuild the pipelines.
pub fn stream_config_changed(last: &StreamConfig, new: &StreamConfig) -> (r: bool)
    ensures
        r == !spec_stream_config_eq(*last, *new),
{
    !(last.vid_format == new.vid_format && last.aud_format == new.aud_format && last.fps
        == new.fps && bytes_eq(&last.codec_params, &new.codec_params))
}

/// Whether two pause configurations agree; a change restarts the
/// iteration with a new affector topology.
pub fn pause_config_same(a: &PauseConfig, b: &PauseConfig) -> (r: bool)
    ensures
        r == (a.on_motion == b.on_motion && a.on_disconnect == b.on_disconnect
            && a.motion_timeout_ms == b.motion_timeout_ms && a.mode@ == b.mode@),
{
    a.on_motion == b.on_motion && a.on_disconnect == b.on_disconnect && a.motion_timeout_ms
        == b.motion_timeout_ms && string_eq(a.mode.as_str(), b.mode.as_str())
}

/// Expected frame interval in milliseconds for the pacer, from the
/// configured rate; rates under five frames a second are paced as
/// five so a stalled report cannot freeze the stream.
pub fn frame_interval_ms(fps: u16) -> (r: u64)
    ensures
        r == 1000u64 / (if fps < 5 {
            5u64
        } else {
            fps as u64
        }),
        r <= 200,
{
    let f: u64 = if fps < 5 {
        5
    } else {
        fps as u64
    };
    proof {
        assert(1000 as int / f as int <= 200) by (nonlinear_arith)
            requires
                f >= 5,
        ;
    }
    1000 / f
}

/// The spawned tasks of one supervisor iteration, under the
/// iteration's cancellation token. Dropping into a new iteration
/// first cancels the token, then joins every task.
pub struct IterationTasks {
    /// Tasks spawned and not yet joined.
    pub live: u64,
    /// Whether the iteration's cancellation token fired.
    pub cancelled: bool,
}

impl IterationTasks {
    /// A fresh iteration: no tasks, token armed.
    pub fn new() -> (r: Self)
        ensures
            r.live == 0,
            !r.cancelled,
    {
        IterationTasks { live: 0, cancelled: false }
    }

    /// Spawns one task under the iteration's token.
    pub fn spawn(&mut self)
        requires
            !old(self).cancelled,
            old(self).live < u64::MAX,
        ensures
            final(self).live == old(self).live + 1,
            !final(self).cancelled,
    {
        self.live = self.live + 1;
    }

    /// Fires the cancellation token; every spawned task observes it
    /// at its next suspension point.
    pub fn cancel(&mut self)
        ensures
            final(self).cancelled,
            final(self).live == old(self).live,
    {
        self.cancelled = true;
    }

    /// One cancelled task ran to completion and was joined.
    pub fn reap(&mut self)
        requires
            old(self).cancelled,
            old(self).live > 0,
        ensures
            final(self).cancelled,
            final(self).live == old(self).live - 1,
    {
        self.live = self.live - 1;
    }

    /// Joins every remaining task. After this, no spawned task of
    /// the iteration remains live, and the next iteration may begin.
    pub fn join_all(&mut self)
        requires
            old(self).cancelled,
        ensures
            final(self).cancelled,
            final(self).live == 0,
    {
        while self.live > 0
            invariant
                self.cancelled,
            decreases self.live,
        {
            self.reap();
        }
    }
}

} // verus!
