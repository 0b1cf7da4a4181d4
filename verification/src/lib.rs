//! Backend core of a small video-download tool.
//!
//! The tool shells out to helper executables that validate a video URL or
//! fetch raw metadata about it.  Everything the helpers hand back is reduced
//! to plain values before it reaches this crate; the crate then owns the real
//! logic: interpreting the helper's outcome, and normalizing the raw metadata
//! by partitioning its format descriptors into video-capable and audio-only
//! lists.  Process spawning, UTF-8 decoding and JSON (de)serialization stay
//! in the unverified shell around this crate.

pub mod error;
pub mod formats;
pub mod info;
pub mod outcome;
