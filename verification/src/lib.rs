//! Core of an RTSP re-streaming bridge: the per-camera activation state
//! machines, frame history, and the per-client adapter chain
//! (keyframe gate, audio/video sync, pacing, NAL padding, appsrc push)
//! that sits between a camera's timestamped frame broadcast and a
//! downstream media pipeline.

pub mod appsrc;
pub mod config;
pub mod counter;
pub mod frame;
pub mod gate;
pub mod history;
pub mod pacer;
pub mod padding;
pub mod pause;
pub mod pipeline;
pub mod supervisor;
pub mod sync;
