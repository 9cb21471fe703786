//! Video/audio synchronization for one client session.
//!
//! The video pipeline publishes each frame's timestamp to a
//! latest-value channel; the audio pipeline holds a frame back until
//! the published video timestamp has caught up with it. A
//! latest-value channel is used deliberately: audio should catch the
//! current video time, not replay history.

use vstd::prelude::*;

verus! {

/// One release event of a client session: a video frame timestamp
/// published, or an audio frame timestamp released.
#[derive(Clone, Copy, PartialEq, Eq, Structural, Debug)]
pub struct SyncEvent {
    pub vid: bool,
    pub ts: u64,
}

/// The video timestamp the latest-value channel shows after `tr`:
/// the last published video timestamp, zero before the first one.
pub open spec fn last_vid_ts(tr: Seq<SyncEvent>) -> u64
    decreases tr.len(),
{
    if tr.len() == 0 {
        0u64
    } else if tr.last().vid {
        tr.last().ts
    } else {
        last_vid_ts(tr.drop_last())
    }
}

/// Largest published video timestamp in `tr`, zero if there is none.
pub open spec fn max_vid_ts(tr: Seq<SyncEvent>) -> u64
    decreases tr.len(),
{
    if tr.len() == 0 {
        0u64
    } else if tr.last().vid && tr.last().ts > max_vid_ts(tr.drop_last()) {
        tr.last().ts
    } else {
        max_vid_ts(tr.drop_last())
    }
}

/// Largest released audio timestamp in `tr`, zero if there is none.
pub open spec fn max_aud_ts(tr: Seq<SyncEvent>) -> u64
    decreases tr.len(),
{
    if tr.len() == 0 {
        0u64
    } else if !tr.last().vid && tr.last().ts > max_aud_ts(tr.drop_last()) {
        tr.last().ts
    } else {
        max_aud_ts(tr.drop_last())
    }
}

/// A trace the hold adapter can produce: every audio release happened
/// only once the video timestamp had caught up with it.
pub open spec fn valid_sync_trace(tr: Seq<SyncEvent>) -> bool
    decreases tr.len(),
{
    if tr.len() == 0 {
        true
    } else {
        valid_sync_trace(tr.drop_last()) && (!tr.last().vid ==> tr.last().ts <= last_vid_ts(
            tr.drop_last(),
        ))
    }
}

/// The channel value never exceeds the largest published timestamp.
pub proof fn lemma_last_vid_le_max(tr: Seq<SyncEvent>)
    ensures
        last_vid_ts(tr) <= max_vid_ts(tr),
    decreases tr.len(),
{
    if tr.len() > 0 {
        lemma_last_vid_le_max(tr.drop_last());
    }
}

/// Audio never leads video: on any trace the hold adapter allows, the
/// largest released audio timestamp stays at or below the largest
/// published video timestamp.
pub proof fn lemma_audio_never_leads_video(tr: Seq<SyncEvent>)
    requires
        valid_sync_trace(tr),
    ensures
        max_aud_ts(tr) <= max_vid_ts(tr),
    decreases tr.len(),
{
    if tr.len() > 0 {
        lemma_audio_never_leads_video(tr.drop_last());
        if !tr.last().vid {
            lemma_last_vid_le_max(tr.drop_last());
        }
    }
}

/// The law holds of every reachable channel state: whatever was
/// published and released so far, released audio never got ahead of
/// published video.
pub proof fn lemma_channel_audio_never_leads(c: SyncChannel)
    requires
        c.wf(),
    ensures
        max_aud_ts(c.trace@) <= max_vid_ts(c.trace@),
{
    lemma_audio_never_leads_video(c.trace@);
}

/// The latest-value timestamp channel of one client session, with
/// the (ghost) trace of everything published and released over it.
pub struct SyncChannel {
    /// Latest published video timestamp; starts at zero.
    pub ts: u64,
    /// Everything published or released so far, in order.
    pub trace: Ghost<Seq<SyncEvent>>,
}

impl SyncChannel {
    /// The channel value is what the trace says, and the trace obeys
    /// the hold rule.
    pub open spec fn wf(&self) -> bool {
        &&& valid_sync_trace(self.trace@)
        &&& self.ts == last_vid_ts(self.trace@)
    }

    /// A fresh channel showing timestamp zero.
    pub fn new() -> (r: Self)
        ensures
            r.wf(),
            r.ts == 0,
            r.trace@ == Seq::<SyncEvent>::empty(),
    {
        SyncChannel { ts: 0, trace: Ghost(Seq::empty()) }
    }

    /// The sync tap: a video frame passes through and its timestamp
    /// is published for the audio side.
    pub fn publish_video(&mut self, ts: u64)
        requires
            old(self).wf(),
        ensures
            final(self).wf(),
            final(self).ts == ts,
            final(self).trace@ == old(self).trace@.push(SyncEvent { vid: true, ts }),
    {
        proof {
            let tr = self.trace@.push(SyncEvent { vid: true, ts });
            assert(tr.drop_last() =~= self.trace@);
        }
        self.trace = Ghost(self.trace@.push(SyncEvent { vid: true, ts }));
        self.ts = ts;
    }

    /// The hold adapter's release test: an audio frame stamped `ts`
    /// may go out now exactly when video has caught up with it; if it
    /// may not, the caller waits for the next published timestamp and
    /// asks again.
    pub fn try_release_audio(&mut self, ts: u64) -> (r: bool)
        requires
            old(self).wf(),
        ensures
            r == (ts <= old(self).ts),
            final(self).wf(),
            final(self).ts == old(self).ts,
            r ==> final(self).trace@ == old(self).trace@.push(SyncEvent { vid: false, ts }),
            !r ==> final(self).trace@ == old(self).trace@,
    {
        if ts <= self.ts {
            proof {
                let tr = self.trace@.push(SyncEvent { vid: false, ts });
                assert(tr.drop_last() =~= self.trace@);
            }
            self.trace = Ghost(self.trace@.push(SyncEvent { vid: false, ts }));
            true
        } else {
            false
        }
    }
}

} // verus!
