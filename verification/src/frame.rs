//! Timestamped media frames and the negotiated stream configuration.
//!
//! All timestamps in this crate are in milliseconds since the epoch of
//! the stream, matching the granularity the pacing logic works at.

use vstd::prelude::*;

verus! {

/// Video encoding carried by the camera stream. `Unknown` means the
/// format has not been detected yet (the config watch starts there).
#[derive(Clone, Copy, PartialEq, Eq, Structural, Debug)]
pub enum VidFormat {
    H264,
    H265,
    Unknown,
}

/// Audio encoding carried by the camera stream. `Unknown` means the
/// format has not been detected yet.
#[derive(Clone, Copy, PartialEq, Eq, Structural, Debug)]
pub enum AudFormat {
    Aac,
    Adpcm,
    Unknown,
}

/// Mathematical model of a frame: the payload as a byte sequence plus
/// the two stamps. Contracts throughout the crate speak of this model.
#[verifier::ext_equal]
pub struct FrameModel {
    pub payload: Seq<u8>,
    pub ts: u64,
    pub keyframe: bool,
}

/// An immutable timestamped frame as published by the camera driver.
/// `ts` is milliseconds since the epoch of the stream.
#[derive(Debug)]
pub struct StampedFrame {
    pub payload: Vec<u8>,
    pub ts: u64,
    pub keyframe: bool,
}

impl View for StampedFrame {
    type V = FrameModel;

    open spec fn view(&self) -> FrameModel {
        FrameModel { payload: self.payload@, ts: self.ts, keyframe: self.keyframe }
    }
}

/// The models of a sequence of frames.
pub open spec fn frame_models(s: Seq<StampedFrame>) -> Seq<FrameModel> {
    s.map_values(|f: StampedFrame| f@)
}

/// Byte-for-byte copy of a payload.
pub fn clone_bytes(v: &Vec<u8>) -> (r: Vec<u8>)
    ensures
        r@ == v@,
{
    let mut r: Vec<u8> = Vec::new();
    let mut i: usize = 0;
    while i < v.len()
        invariant
            i <= v@.len(),
            r@ == v@.subrange(0, i as int),
        decreases v@.len() - i,
    {
        r.push(v[i]);
        i = i + 1;
    }
    proof {
        assert(r@ =~= v@);
    }
    r
}

impl Clone for StampedFrame {
    fn clone(&self) -> (r: Self)
        ensures
            r@ == self@,
    {
        StampedFrame { payload: clone_bytes(&self.payload), ts: self.ts, keyframe: self.keyframe }
    }
}

/// Byte-for-byte comparison of two payloads.
pub fn bytes_eq(a: &Vec<u8>, b: &Vec<u8>) -> (r: bool)
    ensures
        r == (a@ == b@),
{
    if a.len() != b.len() {
        return false;
    }
    let mut i: usize = 0;
    while i < a.len()
        invariant
            a@.len() == b@.len(),
            i <= a@.len(),
            forall|j: int| 0 <= j < i ==> a@[j] == b@[j],
        decreases a@.len() - i,
    {
        if a[i] != b[i] {
            return false;
        }
        i = i + 1;
    }
    proof {
        assert(a@ =~= b@);
    }
    true
}

/// Stream parameters negotiated with the camera; republished whenever
/// the camera renegotiates. Compared by value to detect reloads.
#[derive(Debug)]
pub struct StreamConfig {
    pub vid_format: VidFormat,
    pub aud_format: AudFormat,
    pub fps: u16,
    /// Extra codec parameters the downstream factory consumes
    /// (parameter sets and the like), carried opaquely and compared
    /// by value like the other fields.
    pub codec_params: Vec<u8>,
}

/// Two configurations agree on every field.
pub open spec fn spec_stream_config_eq(a: StreamConfig, b: StreamConfig) -> bool {
    &&& a.vid_format == b.vid_format
    &&& a.aud_format == b.aud_format
    &&& a.fps == b.fps
    &&& a.codec_params@ == b.codec_params@
}

impl Clone for StreamConfig {
    fn clone(&self) -> (r: Self)
        ensures
            spec_stream_config_eq(r, *self),
    {
        StreamConfig {
            vid_format: self.vid_format,
            aud_format: self.aud_format,
            fps: self.fps,
            codec_params: clone_bytes(&self.codec_params),
        }
    }
}

impl StreamConfig {
    /// A usable video format has been detected.
    pub fn vid_ready(&self) -> (r: bool)
        ensures
            r == (self.vid_format != VidFormat::Unknown),
    {
        !matches!(self.vid_format, VidFormat::Unknown)
    }

    /// A usable audio format has been detected.
    pub fn aud_ready(&self) -> (r: bool)
        ensures
            r == (self.aud_format != AudFormat::Unknown),
    {
        !matches!(self.aud_format, AudFormat::Unknown)
    }
}

} // verus!
