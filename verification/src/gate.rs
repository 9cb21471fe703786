//! The keyframe gate: drops every frame ahead of the first keyframe,
//! then passes everything, so a client always starts decoding at an
//! IDR/IRAP frame.

use vstd::prelude::*;

use crate::frame::{frame_models, FrameModel, StampedFrame};

verus! {

/// What a gate run over `frames` emits, starting with `passed`
/// recording whether a keyframe has already gone through.
pub open spec fn gate_output(frames: Seq<FrameModel>, passed: bool) -> Seq<FrameModel>
    decreases frames.len(),
{
    if frames.len() == 0 {
        Seq::empty()
    } else if passed || frames[0].keyframe {
        seq![frames[0]] + gate_output(frames.drop_first(), true)
    } else {
        gate_output(frames.drop_first(), false)
    }
}

/// Whether the keyframe gate is open after running over `frames` from `passed`.
pub open spec fn gate_passed(frames: Seq<FrameModel>, passed: bool) -> bool {
    passed || exists|j: int| 0 <= j < frames.len() && frames[j].keyframe
}

/// Keyframe start: a fresh gate never emits anything ahead of a
/// keyframe, so the first frame a client sees is one.
pub proof fn lemma_keyframe_start(frames: Seq<FrameModel>)
    ensures
        gate_output(frames, false).len() > 0 ==> gate_output(frames, false)[0].keyframe,
    decreases frames.len(),
{
    if frames.len() > 0 && !frames[0].keyframe {
        lemma_keyframe_start(frames.drop_first());
    }
}

proof fn lemma_open_gate_passes_all(frames: Seq<FrameModel>)
    ensures
        gate_output(frames, true) == frames,
    decreases frames.len(),
{
    if frames.len() > 0 {
        lemma_open_gate_passes_all(frames.drop_first());
        assert(gate_output(frames, true) =~= frames);
    } else {
        assert(gate_output(frames, true) =~= frames);
    }
}

/// A keyframe-aligned sequence passes a fresh gate whole: a client
/// primed from a history that starts at a keyframe sees every
/// history frame, then the live ones, in order.
pub proof fn lemma_aligned_history_passes_whole(frames: Seq<FrameModel>)
    requires
        frames.len() > 0,
        frames[0].keyframe,
    ensures
        gate_output(frames, false) == frames,
{
    lemma_open_gate_passes_all(frames.drop_first());
    assert(gate_output(frames, false) =~= frames);
}

/// Dropping the head folds its keyframe flag into the gating state.
pub proof fn lemma_gate_passed_step(frames: Seq<FrameModel>, passed: bool)
    requires
        frames.len() > 0,
    ensures
        gate_passed(frames, passed) == gate_passed(
            frames.drop_first(),
            passed || frames[0].keyframe,
        ),
{
    let tail = frames.drop_first();
    assert(forall|j: int| 0 <= j < tail.len() ==> tail[j] == frames[j + 1]);
    if gate_passed(frames, passed) && !(passed || frames[0].keyframe) {
        let j = choose|j: int| 0 <= j < frames.len() && frames[j].keyframe;
        assert(tail[j - 1].keyframe);
    }
    if gate_passed(tail, passed || frames[0].keyframe) && !passed && !frames[0].keyframe {
        let j = choose|j: int| 0 <= j < tail.len() && tail[j].keyframe;
        assert(frames[j + 1].keyframe);
    }
}

/// Appending one frame is reflected in the output exactly when gating was already
/// open or the new frame is a keyframe.
pub proof fn lemma_gate_passed_push(frames: Seq<FrameModel>, passed: bool, f: FrameModel)
    ensures
        gate_passed(frames.push(f), passed) == (gate_passed(frames, passed) || f.keyframe),
{
    if gate_passed(frames, passed) && !passed {
        let j = choose|j: int| 0 <= j < frames.len() && frames[j].keyframe;
        assert(frames.push(f)[j].keyframe);
    }
    if f.keyframe {
        assert(frames.push(f)[frames.len() as int].keyframe);
    }
    if gate_passed(frames.push(f), passed) && !passed && !f.keyframe {
        let j = choose|j: int|
            0 <= j < frames.push(f).len() && frames.push(f)[j].keyframe;
        if j < frames.len() {
            assert(frames[j].keyframe);
        }
    }
}

/// Extending the input by one frame appends that frame to the output
/// exactly when gating was already open or the frame is a keyframe.
pub proof fn lemma_gate_output_push(frames: Seq<FrameModel>, passed: bool, f: FrameModel)
    ensures
        gate_output(frames.push(f), passed) == gate_output(frames, passed) + (
        if gate_passed(frames, passed) || f.keyframe {
            seq![f]
        } else {
            Seq::<FrameModel>::empty()
        }),
    decreases frames.len(),
{
    if frames.len() == 0 {
        assert(gate_output(frames, passed) == Seq::<FrameModel>::empty());
        assert(frames.push(f).drop_first() =~= Seq::<FrameModel>::empty());
        assert(gate_output(frames.push(f).drop_first(), true) == Seq::<FrameModel>::empty());
        assert(gate_output(frames.push(f).drop_first(), false) == Seq::<FrameModel>::empty());
        assert(frames.push(f)[0] == f);
        assert(gate_output(frames.push(f), passed) =~= gate_output(frames, passed) + (
        if gate_passed(frames, passed) || f.keyframe {
            seq![f]
        } else {
            Seq::<FrameModel>::empty()
        }));
    } else {
        let tail = frames.drop_first();
        let head_passed = passed || frames[0].keyframe;
        let x: Seq<FrameModel> = if gate_passed(frames, passed) || f.keyframe {
            seq![f]
        } else {
            Seq::empty()
        };
        assert(frames.push(f)[0] == frames[0]);
        assert(frames.push(f).drop_first() =~= tail.push(f));
        lemma_gate_output_push(tail, head_passed, f);
        lemma_gate_passed_step(frames, passed);
        if head_passed {
            assert(gate_output(frames.push(f), passed) == seq![frames[0]] + gate_output(
                tail.push(f),
                true,
            ));
            assert(gate_output(tail.push(f), true) == gate_output(tail, true) + x);
            assert(gate_output(frames, passed) == seq![frames[0]] + gate_output(tail, true));
            assert(seq![frames[0]] + (gate_output(tail, true) + x) =~= (seq![frames[0]]
                + gate_output(tail, true)) + x);
        } else {
            assert(gate_output(frames.push(f), passed) == gate_output(tail.push(f), false));
            assert(gate_output(frames, passed) == gate_output(tail, false));
        }
        assert(gate_output(frames.push(f), passed) == gate_output(frames, passed) + x);
    }
}

/// Per-client gate state: `passed` is set once the first keyframe has
/// gone through.
pub struct KeyframeGate {
    pub passed: bool,
}

impl KeyframeGate {
    /// A fresh gate, still waiting for the first keyframe.
    pub fn new() -> (r: Self)
        ensures
            !r.passed,
    {
        KeyframeGate { passed: false }
    }

    /// Decides one frame: `true` means pass it downstream. Once a
    /// keyframe has gone through, everything afterwards passes too.
    pub fn accept(&mut self, keyframe: bool) -> (r: bool)
        ensures
            r == (old(self).passed || keyframe),
            final(self).passed == (old(self).passed || keyframe),
    {
        if keyframe {
            self.passed = true;
        }
        self.passed
    }

    /// Runs the keyframe gate over a whole slice of frames, returning the
    /// frames it passes, in order.
    pub fn run(&mut self, frames: &Vec<StampedFrame>) -> (r: Vec<StampedFrame>)
        ensures
            frame_models(r@) == gate_output(frame_models(frames@), old(self).passed),
            final(self).passed == gate_passed(frame_models(frames@), old(self).passed),
    {
        let ghost init_passed = self.passed;
        let mut out: Vec<StampedFrame> = Vec::new();
        let mut i: usize = 0;
        while i < frames.len()
            invariant
                i <= frames@.len(),
                frame_models(out@) == gate_output(
                    frame_models(frames@.subrange(0, i as int)),
                    init_passed,
                ),
                self.passed == gate_passed(
                    frame_models(frames@.subrange(0, i as int)),
                    init_passed,
                ),
            decreases frames@.len() - i,
        {
            let ghost prefix = frame_models(frames@.subrange(0, i as int));
            let f = &frames[i];
            let pass = self.accept(f.keyframe);
            proof {
                lemma_gate_output_push(prefix, init_passed, f@);
                lemma_gate_passed_push(prefix, init_passed, f@);
                assert(frame_models(frames@.subrange(0, i + 1 as int)) =~= prefix.push(f@));
            }
            if pass {
                out.push(f.clone());
                proof {
                    assert(frame_models(out@) =~= gate_output(prefix.push(f@), init_passed));
                }
            } else {
                proof {
                    assert(frame_models(out@) =~= gate_output(prefix.push(f@), init_passed));
                }
            }
            i = i + 1;
        }
        proof {
            assert(frames@.subrange(0, frames@.len() as int) =~= frames@);
        }
        out
    }
}

} // verus!
