//! A per-file read engine for a remote, range-addressable byte store.
//!
//! Arbitrary user read offsets are translated into fixed-size, chunk-aligned
//! fetches; fetched chunks are kept in a bounded buffer-pool cache, and
//! sequential access is sped up by a bounded read-ahead queue. All state for
//! one open file is owned by a single engine, driven through a request
//! channel behind a reference-counted handle.

pub mod channel;
pub mod chunk;
pub mod engine;
pub mod errors;
pub mod handle;
pub mod options;
pub mod pool;
pub mod request;
