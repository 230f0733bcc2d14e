//! A single-session media streaming endpoint: the session-description codec,
//! the signaling bridge, the bitstream readers, the per-stream pacing engine
//! and the session lifecycle controller.

pub mod codec;
pub mod nal;
pub mod ogg;
pub mod pacing;
pub mod lifecycle;
pub mod signaling;
