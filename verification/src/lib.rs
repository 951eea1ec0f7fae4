//! Batch-retrieval and regression-verification pipeline for a raw-image
//! decoding library: a manifest of checksum-named sample files is fetched
//! into a local content store, each file is decoded, and the decoded
//! summary is compared against a previously accepted golden record.
//!
//! This crate holds the verified logic: manifest parsing, URL and store-path
//! construction, the canonical summary rendering, golden comparison and diff
//! reporting, transfer accumulation, and the download coordinator's state.
//! Network and file I/O live outside, handing plain values in and out.

pub mod config;
pub mod coordinator;
pub mod diff;
pub mod engine;
pub mod files;
pub mod manifest;
pub mod retry;
pub mod summary;
pub mod text;
pub mod transfer;
