//! Computes cryptographic and checksum digests of files: an algorithm choice
//! with its display label, a reusable streaming digest engine, first-seen
//! deduplication of canonical paths, and the per-file report line.

pub mod algorithm;
pub mod args;
pub mod engine;
pub mod hashes;
pub mod paths;
pub mod report;
mod stream;
