//! Core of an archive-listing utility: validated format chains, a codec
//! registry for stream decompression layers, a seekable-container decision that
//! mediates full in-memory buffering behind a user-confirmable policy, and
//! per-container listing adapters, all sharing one unified error taxonomy.

pub mod error;
pub mod format;
pub mod policy;
pub mod gate;
pub mod codec;
pub mod archive;
pub mod list;
