use vstd::prelude::*;

verus! {

/// Size in bytes of one filesystem block; a chunk is this many bytes times
/// the configured multiplier.
pub const BLOCK_SIZE: u64 = 4096;

/// Options that control how file contents are read.
#[derive(Debug, Clone)]
pub struct FileReadOptions {
    /// The size of the (per-file) read-ahead queue. A value of `0` disables
    /// read-ahead. This value should stay smaller than
    /// `file_read_cache_blocks`, so that later read-ahead chunks cannot push
    /// earlier chunks out of the cache before they are used.
    pub readahead_queue_size: usize,

    /// The size of the per-file read cache, in number of chunk buffers.
    pub file_read_cache_blocks: usize,

    /// The multiplier of the block size that gives the size of one chunk,
    /// the unit fetched in each range request.
    pub read_block_multiplier: u32,
}

impl FileReadOptions {
    /// The chunk size in bytes: block size times the multiplier.
    pub open spec fn chunk_size_spec(self) -> int {
        (BLOCK_SIZE as int) * (self.read_block_multiplier as int)
    }

    /// Computes the chunk size in bytes.
    pub fn chunk_size(&self) -> (r: u64)
        requires
            self.read_block_multiplier >= 1,
        ensures
            r as int == self.chunk_size_spec(),
            r >= BLOCK_SIZE,
    {
        BLOCK_SIZE * (self.read_block_multiplier as u64)
    }
}

} // verus!
