//! Write path for an append-only, network-addressable byte-stream store.
//!
//! The library ingests timestamped binary records, decides which of them
//! become seek points in a sparse index, frames and fragments payloads for
//! atomic appends, and plans retention truncation of the data and index
//! streams.  Every decision is made by verified code over plain values; the
//! storage service and the host pipeline are reached only through a thin
//! unverified adapter that applies the plans this library produces.

pub mod config;
pub mod corrector;
pub mod event;
pub mod index;
pub mod policy;
pub mod retention;
pub mod search;
pub mod session;
pub mod timestamp;
pub mod writer;
