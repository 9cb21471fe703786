//! The per-client adapter chains. Video runs
//! keyframe gate -> sync tap -> pacer -> padder; audio runs
//! keyframe gate -> hold -> pacer. Each `step` decides one frame,
//! exactly as the lazy stream adapters compose.

use vstd::prelude::*;

use crate::frame::{StampedFrame, VidFormat};
use crate::gate::KeyframeGate;
use crate::pacer::{spec_pacer_wait, Pacer};
use crate::padding::{filler_bytes, pad_frame, spec_pad_size};
use crate::sync::{SyncChannel, SyncEvent};

verus! {

/// The video chain of one client session.
pub struct VideoPipeline {
    pub gate: KeyframeGate,
    pub pacer: Pacer,
    pub format: VidFormat,
    /// Expected frame interval in milliseconds.
    pub interval: u64,
}

impl VideoPipeline {
    /// A fresh chain: gate closed, pacer primed to pass the first
    /// frame with no wait.
    pub fn new(format: VidFormat, interval: u64) -> (r: Self)
        requires
            format != VidFormat::Unknown,
        ensures
            !r.gate.passed,
            r.pacer.ts_prev == u64::MAX,
            r.format == format,
            r.interval == interval,
    {
        VideoPipeline { gate: KeyframeGate::new(), pacer: Pacer::new(), format, interval }
    }

    /// Runs one frame through gate, sync tap, pacer and padder.
    /// Returns the milliseconds to sleep before pushing, and the
    /// (possibly padded) frame; `None` when the keyframe gate drops it.
    /// Timestamp and keyframe flag always survive the chain; only
    /// the payload can grow, by exactly one filler NAL unit.
    pub fn step(&mut self, frame: StampedFrame, sync: &mut SyncChannel) -> (r: Option<
        (u64, StampedFrame),
    >)
        requires
            old(self).format != VidFormat::Unknown,
            old(sync).wf(),
            frame.payload@.len() + 4101 <= usize::MAX,
        ensures
            final(sync).wf(),
            final(self).format == old(self).format,
            final(self).interval == old(self).interval,
            r is Some == (old(self).gate.passed || frame.keyframe),
            final(self).gate.passed == (old(self).gate.passed || frame.keyframe),
            r is None ==> *final(sync) == *old(sync) && final(self).pacer == old(self).pacer,
            r matches Some(p) ==> {
                &&& p.1.ts == frame.ts
                &&& p.1.keyframe == frame.keyframe
                &&& p.1.payload@.len() % 4096 == 0
                &&& (frame.payload@.len() % 4096 == 0 ==> p.1.payload@ == frame.payload@)
                &&& (frame.payload@.len() % 4096 != 0 ==> p.1.payload@ == frame.payload@
                    + filler_bytes(
                    old(self).format,
                    spec_pad_size(frame.payload@.len() as int, old(self).format),
                ))
                &&& p.0 == spec_pacer_wait(old(self).pacer.ts_prev, frame.ts, old(self).interval)
                &&& 0 <= p.0 <= old(self).interval
                &&& final(self).pacer.ts_prev == frame.ts
                &&& final(sync).ts == frame.ts
                &&& final(sync).trace@ == old(sync).trace@.push(
                    SyncEvent { vid: true, ts: frame.ts },
                )
            },
    {
        let keyframe = frame.keyframe;
        if !self.gate.accept(keyframe) {
            return None;
        }
        sync.publish_video(frame.ts);
        let wait = self.pacer.step(frame.ts, self.interval);
        let out = pad_frame(frame, self.format);
        Some((wait, out))
    }
}

/// What the audio chain decides for one frame.
pub enum AudioAction {
    /// Dropped by the keyframe gate.
    Dropped,
    /// Video has not caught up; wait for the next published video
    /// timestamp and ask again with the same frame.
    Hold,
    /// Release after sleeping the given milliseconds.
    Release(u64, StampedFrame),
}

/// The audio chain of one client session.
pub struct AudioPipeline {
    pub gate: KeyframeGate,
    pub pacer: Pacer,
    /// Expected frame interval in milliseconds.
    pub interval: u64,
}

impl AudioPipeline {
    /// A fresh chain: gate closed, pacer primed.
    pub fn new(interval: u64) -> (r: Self)
        ensures
            !r.gate.passed,
            r.pacer.ts_prev == u64::MAX,
            r.interval == interval,
    {
        AudioPipeline { gate: KeyframeGate::new(), pacer: Pacer::new(), interval }
    }

    /// Runs one frame through gate, hold and pacer. Audio frames are
    /// released only once the published video timestamp has caught
    /// up, so audio never leads video.
    pub fn step(&mut self, frame: StampedFrame, sync: &mut SyncChannel) -> (r: AudioAction)
        requires
            old(sync).wf(),
        ensures
            final(sync).wf(),
            final(self).interval == old(self).interval,
            final(self).gate.passed == (old(self).gate.passed || frame.keyframe),
            r is Dropped <==> !(old(self).gate.passed || frame.keyframe),
            r is Hold <==> (old(self).gate.passed || frame.keyframe) && frame.ts > old(sync).ts,
            !(r is Release) ==> *final(sync) == *old(sync) && final(self).pacer == old(
                self,
            ).pacer,
            r matches AudioAction::Release(wait, out) ==> {
                &&& out.ts == frame.ts
                &&& out.keyframe == frame.keyframe
                &&& out.payload@ == frame.payload@
                &&& frame.ts <= old(sync).ts
                &&& wait == spec_pacer_wait(old(self).pacer.ts_prev, frame.ts, old(self).interval)
                &&& 0 <= wait <= old(self).interval
                &&& final(self).pacer.ts_prev == frame.ts
                &&& final(sync).ts == old(sync).ts
                &&& final(sync).trace@ == old(sync).trace@.push(
                    SyncEvent { vid: false, ts: frame.ts },
                )
            },
    {
        let keyframe = frame.keyframe;
        if !self.gate.accept(keyframe) {
            return AudioAction::Dropped;
        }
        if !sync.try_release_audio(frame.ts) {
            return AudioAction::Hold;
        }
        let wait = self.pacer.step(frame.ts, self.interval);
        AudioAction::Release(wait, frame)
    }
}

} // verus!
