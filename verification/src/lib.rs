//! A forensic triage scanner core: filename and content-head heuristics for
//! cryptocurrency-wallet artifacts, with a SHA-256 content hash on every hit.
//!
//! The library holds the verified per-file pipeline: the fixed pattern set,
//! the two-stage matcher (filename before content, first match wins), the
//! bounded head decoder, the content hasher, and hit construction. File
//! enumeration, the worker pool, and the output sink live outside it and hand
//! the library plain values.

pub mod engine;
pub mod hash;
pub mod matcher;
pub mod patterns;
pub mod text;
