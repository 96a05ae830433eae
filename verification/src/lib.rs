//! A stale-check-and-reload cache for an externally updated JSON document.
//!
//! The cache keeps the last successfully parsed document together with the
//! modification time of the file content that produced it, reloads only when
//! a probe reports a strictly newer modification time, and degrades to an
//! absent state (reported with timestamp zero) on any probe, read, or parse
//! failure instead of surfacing an error.

pub mod cache;
pub mod laws;
