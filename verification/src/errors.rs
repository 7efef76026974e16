use vstd::prelude::*;

verus! {

/// Why a chunk fetch failed.
#[derive(Debug, Clone, Copy, PartialEq, Eq, Structural)]
pub enum FetchError {
    /// A transport-level failure while talking to the remote store.
    Transport,
    /// The remote store answered with a non-success status.
    RemoteRejected,
}

/// The failure delivered to a user request's reply sink.
#[derive(Debug, Clone, Copy, PartialEq, Eq, Structural)]
pub enum ReadError {
    /// The requested byte range crosses a chunk boundary; such reads are
    /// rejected, never split.
    UnsupportedSpan,
    /// A fetch failed, so the read fails with an I/O error.
    Io(FetchError),
}

/// The engine behind a handle has stopped; the handle is dead.
#[derive(Debug, Clone, Copy, PartialEq, Eq, Structural)]
pub struct SubmissionError;

} // verus!
