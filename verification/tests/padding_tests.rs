use restream::frame::{StampedFrame, VidFormat};
use restream::padding::{h264_filler, h265_filler, pad_frame, ALIGN};

#[test]
fn h264_filler_smallest() {
    assert_eq!(h264_filler(5), vec![0x00, 0x00, 0x01, 0x0c, 0x80]);
}

#[test]
fn h264_filler_with_payload() {
    assert_eq!(
        h264_filler(8),
        vec![0x00, 0x00, 0x01, 0x0c, 0xff, 0xff, 0xff, 0x80]
    );
}

#[test]
fn h265_filler_smallest() {
    assert_eq!(h265_filler(6), vec![0x00, 0x00, 0x01, 0x4c, 0x00, 0x80]);
}

#[test]
fn h265_filler_with_payload() {
    assert_eq!(
        h265_filler(9),
        vec![0x00, 0x00, 0x01, 0x4c, 0x00, 0xff, 0xff, 0xff, 0x80]
    );
}

#[test]
fn pad_aligns_h264_payload() {
    let frame = StampedFrame {
        payload: vec![0xaa; 100],
        ts: 33,
        keyframe: true,
    };
    let out = pad_frame(frame, VidFormat::H264);
    assert_eq!(out.payload.len(), 4096);
    assert_eq!(out.ts, 33);
    assert!(out.keyframe);
    // Input bytes untouched.
    assert_eq!(&out.payload[..100], &[0xaa; 100][..]);
    // Appended bytes are one H.264 filler NAL unit.
    let pad = &out.payload[100..];
    assert_eq!(&pad[..4], &[0x00, 0x00, 0x01, 0x0c]);
    assert!(pad[4..pad.len() - 1].iter().all(|b| *b == 0xff));
    assert_eq!(*pad.last().unwrap(), 0x80);
}

#[test]
fn pad_aligns_h265_payload() {
    let frame = StampedFrame {
        payload: vec![0x11; 5000],
        ts: 66,
        keyframe: false,
    };
    let out = pad_frame(frame, VidFormat::H265);
    assert_eq!(out.payload.len() % ALIGN, 0);
    assert_eq!(out.payload.len(), 8192);
    assert_eq!(out.ts, 66);
    assert!(!out.keyframe);
    let pad = &out.payload[5000..];
    assert_eq!(&pad[..5], &[0x00, 0x00, 0x01, 0x4c, 0x00]);
    assert!(pad[5..pad.len() - 1].iter().all(|b| *b == 0xff));
    assert_eq!(*pad.last().unwrap(), 0x80);
}

#[test]
fn pad_leaves_aligned_payload_alone() {
    let frame = StampedFrame {
        payload: vec![0x42; 4096],
        ts: 1,
        keyframe: true,
    };
    let out = pad_frame(frame, VidFormat::H264);
    assert_eq!(out.payload, vec![0x42; 4096]);
}

#[test]
fn pad_reserves_room_for_minimum_filler() {
    // 4093 payload bytes leave only 3 free in the block, under the
    // 5-byte minimum H.264 filler: a whole further block is used.
    let frame = StampedFrame {
        payload: vec![0x01; 4093],
        ts: 0,
        keyframe: true,
    };
    let out = pad_frame(frame, VidFormat::H264);
    assert_eq!(out.payload.len(), 8192);
}
