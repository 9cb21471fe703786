//! NAL-unit filler generation and 4 KiB payload padding.
//!
//! The downstream media framework's buffer pool performs best on
//! 4096-byte-aligned buffers, so every video payload whose length is
//! not a multiple of 4096 is extended with a single filler NAL unit
//! that decoders ignore. The byte layout is part of the wire output
//! and is reproduced bit-exact here.

use vstd::prelude::*;

use crate::frame::{StampedFrame, VidFormat};

verus! {

/// Alignment the downstream buffer pool prefers.
pub const ALIGN: usize = 4096;

/// Smallest filler NAL unit the codec allows: start code, NAL header
/// and the closing RBSP byte. H.264 needs 5 bytes, H.265 needs 6.
pub open spec fn spec_min_pad(format: VidFormat) -> int {
    if format is H265 {
        6
    } else {
        5
    }
}

/// Bytes of an H.264 filler NAL unit of exactly `size` bytes:
/// start code `00 00 01`, filler-data NAL header `0C`, `size - 5`
/// bytes of `FF`, and the RBSP trailing byte `80`.
pub open spec fn h264_filler_bytes(size: int) -> Seq<u8>
    recommends
        size >= 5,
{
    seq![0u8, 0u8, 1u8, 0x0cu8] + Seq::new((size - 5) as nat, |i: int| 0xffu8) + seq![0x80u8]
}

/// Bytes of an H.265 filler NAL unit of exactly `size` bytes:
/// start code `00 00 01`, filler-data NAL header `4C 00`, `size - 6`
/// bytes of `FF`, and the RBSP trailing byte `80`.
pub open spec fn h265_filler_bytes(size: int) -> Seq<u8>
    recommends
        size >= 6,
{
    seq![0u8, 0u8, 1u8, 0x4cu8, 0u8] + Seq::new((size - 6) as nat, |i: int| 0xffu8) + seq![0x80u8]
}

/// The filler NAL unit for the given codec.
pub open spec fn filler_bytes(format: VidFormat, size: int) -> Seq<u8>
    recommends
        size >= spec_min_pad(format),
{
    if format is H265 {
        h265_filler_bytes(size)
    } else {
        h264_filler_bytes(size)
    }
}

/// `s` parses as one H.264 filler NAL unit: start code, filler-data
/// NAL type 12, any number of `FF` payload bytes, RBSP stop byte.
pub open spec fn is_h264_filler_nal(s: Seq<u8>) -> bool {
    &&& s.len() >= 5
    &&& s[0] == 0u8
    &&& s[1] == 0u8
    &&& s[2] == 1u8
    &&& s[3] == 0x0cu8
    &&& forall|i: int| 4 <= i < s.len() - 1 ==> s[i] == 0xffu8
    &&& s[s.len() - 1] == 0x80u8
}

/// `s` parses as one H.265 filler NAL unit: start code, filler-data
/// NAL header (type 38), any number of `FF` payload bytes, stop byte.
pub open spec fn is_h265_filler_nal(s: Seq<u8>) -> bool {
    &&& s.len() >= 6
    &&& s[0] == 0u8
    &&& s[1] == 0u8
    &&& s[2] == 1u8
    &&& s[3] == 0x4cu8
    &&& s[4] == 0u8
    &&& forall|i: int| 5 <= i < s.len() - 1 ==> s[i] == 0xffu8
    &&& s[s.len() - 1] == 0x80u8
}

/// `s` parses as one filler NAL unit under the given codec.
pub open spec fn is_filler_nal(format: VidFormat, s: Seq<u8>) -> bool {
    if format is H265 {
        is_h265_filler_nal(s)
    } else {
        is_h264_filler_nal(s)
    }
}

/// The generated filler bytes always parse back as a single filler
/// NAL unit of the requested codec.
pub proof fn lemma_filler_parses(format: VidFormat, size: int)
    requires
        size >= spec_min_pad(format),
    ensures
        filler_bytes(format, size).len() == size,
        is_filler_nal(format, filler_bytes(format, size)),
{
}

/// Builds an H.264 filler NAL unit of exactly `size` bytes.
pub fn h264_filler(size: usize) -> (r: Vec<u8>)
    requires
        size >= 5,
    ensures
        r@ == h264_filler_bytes(size as int),
        r@.len() == size,
{
    let mut buf: Vec<u8> = Vec::new();
    buf.push(0x00);
    buf.push(0x00);
    buf.push(0x01);
    buf.push(0x0c);
    while buf.len() < size - 1
        invariant
            size >= 5,
            4 <= buf@.len() <= size - 1,
            buf@ == seq![0u8, 0u8, 1u8, 0x0cu8] + Seq::new((buf@.len() - 4) as nat, |i: int| 0xffu8),
        decreases size - buf@.len(),
    {
        buf.push(0xff);
        proof {
            assert(buf@ =~= seq![0u8, 0u8, 1u8, 0x0cu8]
                + Seq::new((buf@.len() - 4) as nat, |i: int| 0xffu8));
        }
    }
    buf.push(0x80);
    proof {
        assert(buf@ =~= h264_filler_bytes(size as int));
    }
    buf
}

/// Builds an H.265 filler NAL unit of exactly `size` bytes.
pub fn h265_filler(size: usize) -> (r: Vec<u8>)
    requires
        size >= 6,
    ensures
        r@ == h265_filler_bytes(size as int),
        r@.len() == size,
{
    let mut buf: Vec<u8> = Vec::new();
    buf.push(0x00);
    buf.push(0x00);
    buf.push(0x01);
    buf.push(0x4c);
    buf.push(0x00);
    while buf.len() < size - 1
        invariant
            size >= 6,
            5 <= buf@.len() <= size - 1,
            buf@ == seq![0u8, 0u8, 1u8, 0x4cu8, 0u8]
                + Seq::new((buf@.len() - 5) as nat, |i: int| 0xffu8),
        decreases size - buf@.len(),
    {
        buf.push(0xff);
        proof {
            assert(buf@ =~= seq![0u8, 0u8, 1u8, 0x4cu8, 0u8]
                + Seq::new((buf@.len() - 5) as nat, |i: int| 0xffu8));
        }
    }
    buf.push(0x80);
    proof {
        assert(buf@ =~= h265_filler_bytes(size as int));
    }
    buf
}

/// Pad needed to carry `len` payload bytes plus a filler NAL unit of
/// at least the codec's minimum size, rounded up to the alignment.
pub open spec fn spec_pad_size(len: int, format: VidFormat) -> int {
    ((len + spec_min_pad(format) + 4095) / 4096) * 4096 - len
}

/// The pad is always large enough for a filler NAL unit, bounded by
/// one alignment block more, and completes `len` to a multiple of
/// the alignment.
pub proof fn lemma_pad_size_bounds(len: int, format: VidFormat)
    requires
        len >= 0,
    ensures
        spec_min_pad(format) <= spec_pad_size(len, format) < spec_min_pad(format) + 4096,
        (len + spec_pad_size(len, format)) % 4096 == 0,
{
    let m = spec_min_pad(format);
    let a = len + m + 4095;
    let q = a / 4096;
    vstd::arithmetic::div_mod::lemma_fundamental_div_mod(a, 4096);
    vstd::arithmetic::div_mod::lemma_mod_bound(a, 4096);
    vstd::arithmetic::div_mod::lemma_mod_multiples_basic(q, 4096);
}

/// Pads a video frame so its payload length is a multiple of 4096
/// bytes by appending one filler NAL unit; already-aligned payloads
/// pass through untouched. Timestamp and keyframe flag are preserved.
pub fn pad_frame(frame: StampedFrame, format: VidFormat) -> (r: StampedFrame)
    requires
        format != VidFormat::Unknown,
        frame.payload@.len() + 4101 <= usize::MAX,
    ensures
        r.ts == frame.ts,
        r.keyframe == frame.keyframe,
        r.payload@.len() % 4096 == 0,
        frame.payload@.len() % 4096 == 0 ==> r.payload@ == frame.payload@,
        frame.payload@.len() % 4096 != 0 ==> r.payload@ == frame.payload@
            + filler_bytes(format, spec_pad_size(frame.payload@.len() as int, format)),
{
    let len = frame.payload.len();
    if len % ALIGN == 0 {
        frame
    } else {
        proof {
            lemma_pad_size_bounds(len as int, format);
        }
        let min_pad: usize = if matches!(format, VidFormat::H265) { 6 } else { 5 };
        let q = (len + min_pad + 4095) / 4096;
        let pad = q * 4096 - len;
        let mut filler = if matches!(format, VidFormat::H265) {
            h265_filler(pad)
        } else {
            h264_filler(pad)
        };
        let mut payload = frame.payload;
        payload.append(&mut filler);
        StampedFrame { payload, ts: frame.ts, keyframe: frame.keyframe }
    }
}

} // verus!
