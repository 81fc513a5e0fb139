//! Sample buffering and stream normalization for dual-channel audio playback.
//!
//! Samples are carried as the raw bit patterns of IEEE 754 single-precision
//! values (`u32`); the bit pattern `0` is digital silence. Keeping the numeric
//! representation opaque lets every buffer operation state exactly which bit
//! patterns end up where, independent of floating-point arithmetic, which is
//! confined to the unverified host layer.

pub mod buffer;
pub mod reader;
