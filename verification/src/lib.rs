//! Format-aware image transform pipeline.
//!
//! The crate sniffs the container format of an encoded image, re-encodes it
//! with a size-adaptive quality, and can apply a fingerprint-changing
//! transform (sparse noise, one-pixel dimension jitter and a faint digit
//! watermark) before encoding.

pub mod batch;
pub mod codec;
pub mod error;
pub mod evasion;
pub mod format;
pub mod glyph;
pub mod grid;
pub mod jitter;
pub mod noise;
pub mod pipeline;
pub mod quality;
pub mod random;
pub mod watermark;
