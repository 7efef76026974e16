use vstd::prelude::*;
use crate::errors::ReadError;

verus! {

/// The one-shot receiver of a user read's result. Resolving it consumes it,
/// so a request is answered at most once; the engine answers every user
/// request it takes exactly once.
pub trait ReplySink: Sized {
    /// Deliver the bytes the read produced.
    fn data(self, bytes: &[u8]);

    /// Deliver the failure the read ran into.
    fn error(self, err: ReadError);
}

/// A request to read data from a file: either a user read carrying a reply
/// sink, or a speculative read-ahead carrying none.
pub struct FileReadRequest<R> {
    offset: u64,
    size: u32,
    reply: Option<R>,
}

impl<R: ReplySink> FileReadRequest<R> {
    /// The requested byte offset.
    pub closed spec fn offset_spec(self) -> u64 {
        self.offset
    }

    /// The requested number of bytes.
    pub closed spec fn size_spec(self) -> u32 {
        self.size
    }

    /// Whether the request is speculative (carries no reply sink).
    pub closed spec fn is_readahead_spec(self) -> bool {
        self.reply is None
    }

    /// A user read of `size` bytes at `offset`, answered through `reply`.
    pub fn user(offset: u64, size: u32, reply: R) -> (r: Self)
        ensures
            r.offset_spec() == offset,
            r.size_spec() == size,
            !r.is_readahead_spec(),
    {
        FileReadRequest { offset, size, reply: Some(reply) }
    }

    /// A speculative read of `size` bytes at `offset`, with no one waiting.
    pub fn readahead(offset: u64, size: u32) -> (r: Self)
        ensures
            r.offset_spec() == offset,
            r.size_spec() == size,
            r.is_readahead_spec(),
    {
        FileReadRequest { offset, size, reply: None }
    }

    /// The requested byte offset.
    pub fn offset(&self) -> (r: u64)
        ensures
            r == self.offset_spec(),
    {
        self.offset
    }

    /// The requested number of bytes.
    pub fn size(&self) -> (r: u32)
        ensures
            r == self.size_spec(),
    {
        self.size
    }

    /// Resolve the request with an error; a read-ahead request discards it.
    pub fn error(self, err: ReadError) {
        if let Some(reply) = self.reply {
            reply.error(err);
        }
    }

    /// Resolve the request with data; a read-ahead request discards it.
    pub fn data(self, bytes: &[u8]) {
        if let Some(reply) = self.reply {
            reply.data(bytes);
        }
    }

    /// Whether the request is speculative read-ahead.
    pub fn is_readahead(&self) -> (r: bool)
        ensures
            r == self.is_readahead_spec(),
    {
        self.reply.is_none()
    }
}

} // verus!
