//! Bounded history of recent frames, primed while the stream is
//! active so a client joining mid-stream can be fed everything from
//! the last keyframe boundary before it gets live frames.

use vstd::prelude::*;

use crate::frame::{frame_models, FrameModel, StampedFrame};

verus! {

/// Drops the head while it is not a keyframe; what is left either
/// starts at a keyframe or is empty.
pub open spec fn trim_to_keyframe(s: Seq<FrameModel>) -> Seq<FrameModel>
    decreases s.len(),
{
    if s.len() > 0 && !s[0].keyframe {
        trim_to_keyframe(s.drop_first())
    } else {
        s
    }
}

/// What the video ring holds after a frame arrives: the frame is
/// appended, the oldest frame is dropped if the ring is over
/// capacity, and a new keyframe trims the head up to a keyframe
/// boundary.
pub open spec fn push_vid_spec(s: Seq<FrameModel>, f: FrameModel, cap: int) -> Seq<FrameModel> {
    let grown = if s.len() + 1 > cap {
        s.push(f).drop_first()
    } else {
        s.push(f)
    };
    if f.keyframe {
        trim_to_keyframe(grown)
    } else {
        grown
    }
}

/// What the audio ring holds after a frame arrives: appended, and
/// the oldest frame dropped if the ring is over capacity.
pub open spec fn push_aud_spec(s: Seq<FrameModel>, f: FrameModel, cap: int) -> Seq<FrameModel> {
    if s.len() + 1 > cap {
        s.push(f).drop_first()
    } else {
        s.push(f)
    }
}

/// Drops audio frames older than the start of the retained video
/// span.
pub open spec fn drop_aud_before(s: Seq<FrameModel>, cutoff: u64) -> Seq<FrameModel>
    decreases s.len(),
{
    if s.len() > 0 && s[0].ts < cutoff {
        drop_aud_before(s.drop_first(), cutoff)
    } else {
        s
    }
}

/// A ring whose newest frame is a keyframe does not trim away
/// entirely.
pub proof fn lemma_trim_keeps_last_keyframe(s: Seq<FrameModel>)
    requires
        s.len() > 0,
        s.last().keyframe,
    ensures
        trim_to_keyframe(s).len() > 0,
        trim_to_keyframe(s)[0].keyframe,
    decreases s.len(),
{
    if !s[0].keyframe {
        assert(s.drop_first().last() == s.last());
        lemma_trim_keeps_last_keyframe(s.drop_first());
    }
}

/// Pushing a keyframe always leaves the ring non-empty and starting
/// at a keyframe: the keyframe boundary a joining client needs.
pub proof fn lemma_push_keyframe_starts_ring(s: Seq<FrameModel>, f: FrameModel, cap: int)
    requires
        f.keyframe,
        cap >= 1,
        s.len() <= cap,
    ensures
        push_vid_spec(s, f, cap).len() > 0,
        push_vid_spec(s, f, cap)[0].keyframe,
{
    let grown = if s.len() + 1 > cap {
        s.push(f).drop_first()
    } else {
        s.push(f)
    };
    assert(grown.len() > 0);
    assert(grown.last() == f);
    lemma_trim_keeps_last_keyframe(grown);
}

/// The two bounded rings of recent frames for one stream.
pub struct FrameHistory {
    pub vid: Vec<StampedFrame>,
    pub aud: Vec<StampedFrame>,
    /// Configured depth per track.
    pub cap: usize,
}

impl FrameHistory {
    /// Both rings stay within capacity.
    pub open spec fn wf(&self) -> bool {
        &&& self.cap >= 1
        &&& self.vid@.len() <= self.cap
        &&& self.aud@.len() <= self.cap
    }

    /// Timestamp of the start of the retained video span; audio
    /// older than this is of no use to a joining client.
    pub open spec fn spec_vid_span_start(&self) -> u64 {
        if self.vid@.len() > 0 {
            self.vid@[0].ts
        } else {
            0u64
        }
    }

    /// Empty rings of the configured depth.
    pub fn new(cap: usize) -> (r: Self)
        requires
            cap >= 1,
        ensures
            r.wf(),
            r.cap == cap,
            r.vid@.len() == 0,
            r.aud@.len() == 0,
    {
        FrameHistory { vid: Vec::new(), aud: Vec::new(), cap }
    }

    /// A video frame arrives from the camera.
    pub fn push_vid(&mut self, f: StampedFrame)
        requires
            old(self).wf(),
        ensures
            final(self).wf(),
            final(self).cap == old(self).cap,
            final(self).aud@ == old(self).aud@,
            frame_models(final(self).vid@) == push_vid_spec(
                frame_models(old(self).vid@),
                f@,
                old(self).cap as int,
            ),
    {
        let ghost orig = frame_models(self.vid@);
        let ghost cap = self.cap as int;
        let keyframe = f.keyframe;
        self.vid.push(f);
        proof {
            assert(frame_models(self.vid@) =~= orig.push(f@));
        }
        if self.vid.len() > self.cap {
            let ghost before = frame_models(self.vid@);
            self.vid.remove(0);
            proof {
                assert(frame_models(self.vid@) =~= before.drop_first());
            }
        }
        let ghost grown = frame_models(self.vid@);
        if keyframe {
            while self.vid.len() > 0 && !self.vid[0].keyframe
                invariant
                    self.cap == old(self).cap,
                    self.aud@ == old(self).aud@,
                    self.vid@.len() <= self.cap,
                    trim_to_keyframe(frame_models(self.vid@)) == trim_to_keyframe(grown),
                decreases self.vid@.len(),
            {
                let ghost before = frame_models(self.vid@);
                proof {
                    assert(before[0] == self.vid@[0]@);
                }
                self.vid.remove(0);
                proof {
                    assert(frame_models(self.vid@) =~= before.drop_first());
                }
            }
            proof {
                let cur = frame_models(self.vid@);
                if self.vid@.len() > 0 {
                    assert(cur[0] == self.vid@[0]@);
                }
                assert(trim_to_keyframe(cur) == cur);
            }
        }
    }

    /// An audio frame arrives from the camera.
    pub fn push_aud(&mut self, f: StampedFrame)
        requires
            old(self).wf(),
        ensures
            final(self).wf(),
            final(self).cap == old(self).cap,
            final(self).vid@ == old(self).vid@,
            frame_models(final(self).aud@) == push_aud_spec(
                frame_models(old(self).aud@),
                f@,
                old(self).cap as int,
            ),
    {
        let ghost orig = frame_models(self.aud@);
        self.aud.push(f);
        proof {
            assert(frame_models(self.aud@) =~= orig.push(f@));
        }
        if self.aud.len() > self.cap {
            let ghost before = frame_models(self.aud@);
            self.aud.remove(0);
            proof {
                assert(frame_models(self.aud@) =~= before.drop_first());
            }
        }
    }

    /// Trims the audio ring by age so it covers no more than the
    /// retained video span.
    pub fn trim_aud(&mut self)
        requires
            old(self).wf(),
        ensures
            final(self).wf(),
            final(self).cap == old(self).cap,
            final(self).vid@ == old(self).vid@,
            frame_models(final(self).aud@) == drop_aud_before(
                frame_models(old(self).aud@),
                old(self).spec_vid_span_start(),
            ),
    {
        let cutoff: u64 = if self.vid.len() > 0 {
            self.vid[0].ts
        } else {
            0
        };
        let ghost start = frame_models(self.aud@);
        while self.aud.len() > 0 && self.aud[0].ts < cutoff
            invariant
                self.cap == old(self).cap,
                self.vid@ == old(self).vid@,
                cutoff == old(self).spec_vid_span_start(),
                self.aud@.len() <= self.cap,
                drop_aud_before(frame_models(self.aud@), cutoff) == drop_aud_before(
                    start,
                    cutoff,
                ),
            decreases self.aud@.len(),
        {
            let ghost before = frame_models(self.aud@);
            proof {
                assert(before[0] == self.aud@[0]@);
            }
            self.aud.remove(0);
            proof {
                assert(frame_models(self.aud@) =~= before.drop_first());
            }
        }
        proof {
            let cur = frame_models(self.aud@);
            if self.aud@.len() > 0 {
                assert(cur[0] == self.aud@[0]@);
            }
            assert(drop_aud_before(cur, cutoff) == cur);
        }
    }

    /// Snapshot of the video ring for a newly joined client.
    pub fn vid_snapshot(&self) -> (r: Vec<StampedFrame>)
        ensures
            frame_models(r@) == frame_models(self.vid@),
    {
        clone_frames(&self.vid)
    }

    /// Snapshot of the audio ring for a newly joined client.
    pub fn aud_snapshot(&self) -> (r: Vec<StampedFrame>)
        ensures
            frame_models(r@) == frame_models(self.aud@),
    {
        clone_frames(&self.aud)
    }
}

/// Copies a slice of frames, model for model.
pub fn clone_frames(v: &Vec<StampedFrame>) -> (r: Vec<StampedFrame>)
    ensures
        frame_models(r@) == frame_models(v@),
{
    let mut r: Vec<StampedFrame> = Vec::new();
    let mut i: usize = 0;
    while i < v.len()
        invariant
            i <= v@.len(),
            r@.len() == i,
            forall|j: int| 0 <= j < i ==> r@[j]@ == v@[j]@,
        decreases v@.len() - i,
    {
        r.push(v[i].clone());
        i = i + 1;
    }
    proof {
        assert(frame_models(r@) =~= frame_models(v@));
    }
    r
}

} // verus!
