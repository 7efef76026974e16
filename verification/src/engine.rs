use vstd::prelude::*;
use std::collections::VecDeque;
use crate::channel::{poll_request, request_channel, wait_request, PollOutcome};
use crate::chunk::{chunk_start, chunk_start_of, reply_bytes, request_spans_chunks, spans_chunks};
use crate::errors::{FetchError, ReadError};
use crate::handle::FileReadHandle;
use crate::options::FileReadOptions;
use crate::pool::{
    pool_contains, pool_entries, pool_free, pool_get, pool_heat_bound, pool_insert, pool_new,
    pool_put, pool_take, BufferPool,
};
use crate::request::{FileReadRequest, ReplySink};

verus! {

/// Tuning constant handed to the buffer pool: how resistant an often-read
/// chunk is to eviction.
pub const POOL_MAX_HEAT: u64 = 10;

/// Supplies the raw bytes of one chunk; implemented outside the engine, over
/// the network client that performs the authenticated range request.
pub trait ChunkFetcher {
    /// Read up to `size` bytes starting at `start` into `buf`. On success
    /// `buf` holds the bytes that exist (fewer than `size` near the end of
    /// the file); on failure the read that caused the fetch fails with an
    /// I/O error.
    fn fetch(&mut self, start: u64, size: u64, buf: &mut Vec<u8>) -> Result<(), FetchError>;
}

/// The read-ahead schedule after a user request for the chunk at `cs` was
/// served: the next `steps` chunk offsets past `cs`, keeping those that are
/// not yet cached and still representable in an offset.
pub open spec fn readahead_plan(cached: Set<u64>, cs: int, chunk: int, steps: nat) -> Seq<u64>
    recommends
        chunk >= 1,
        0 <= cs,
    decreases steps,
{
    if steps == 0 {
        Seq::empty()
    } else {
        let prev = readahead_plan(cached, cs, chunk, (steps - 1) as nat);
        let off = cs + steps * chunk;
        if off <= u64::MAX && !cached.contains(off as u64) {
            prev.push(off as u64)
        } else {
            prev
        }
    }
}

/// After a served user request the read-ahead queue holds at most `steps`
/// offsets, each chunk-aligned, past the served chunk and not cached when it
/// was enqueued, in strictly increasing order.
pub proof fn lemma_readahead_plan_wf(cached: Set<u64>, cs: int, chunk: int, steps: nat)
    requires
        chunk >= 1,
        0 <= cs,
        cs % chunk == 0,
    ensures
        readahead_plan(cached, cs, chunk, steps).len() <= steps,
        forall|i: int|
            0 <= i < readahead_plan(cached, cs, chunk, steps).len() ==> {
                let e = #[trigger] readahead_plan(cached, cs, chunk, steps)[i];
                &&& cs < e <= cs + steps * chunk
                &&& e as int % chunk == 0
                &&& !cached.contains(e)
            },
        forall|i: int, j: int|
            0 <= i < j < readahead_plan(cached, cs, chunk, steps).len()
                ==> #[trigger] readahead_plan(cached, cs, chunk, steps)[i]
                < #[trigger] readahead_plan(cached, cs, chunk, steps)[j],
    decreases steps,
{
    if steps == 0 {
    } else {
        lemma_readahead_plan_wf(cached, cs, chunk, (steps - 1) as nat);
        let off = cs + steps * chunk;
        assert(steps * chunk == (steps - 1) * chunk + chunk) by (nonlinear_arith);
        assert((steps - 1) * chunk >= 0) by (nonlinear_arith)
            requires
                chunk >= 1,
                steps >= 1,
        ;
        assert(off % chunk == 0) by {
            vstd::arithmetic::div_mod::lemma_mod_multiples_vanish(steps as int, cs, chunk);
            vstd::arithmetic::mul::lemma_mul_is_commutative(steps as int, chunk);
            assert(cs % chunk == 0);
        }
    }
}

/// Between the old and the new cache contents, no entry other than the one
/// for `cs` appeared or changed its bytes; entries may only have left.
pub open spec fn cache_preserved_except(
    pre: Map<u64, Seq<u8>>,
    post: Map<u64, Seq<u8>>,
    cs: u64,
) -> bool {
    forall|k: u64|
        k != cs && #[trigger] post.dom().contains(k) ==> pre.dom().contains(k) && post[k] == pre[k]
}

/// Every queued read-ahead offset is a multiple of the chunk size.
pub open spec fn queue_aligned(q: Seq<u64>, chunk: u64) -> bool {
    forall|i: int| 0 <= i < q.len() ==> #[trigger] q[i] as int % chunk as int == 0
}

/// The queued read-ahead offsets grow strictly from front to back: the queue
/// describes one linear forward scan, with no offset pending twice.
pub open spec fn queue_increasing(q: Seq<u64>) -> bool {
    forall|i: int, j: int| 0 <= i < j < q.len() ==> #[trigger] q[i] < #[trigger] q[j]
}

/// What one scheduling step of the engine did.
#[derive(Debug, PartialEq, Eq, Structural)]
pub enum EngineStep {
    /// A request (user or read-ahead) was handled.
    Handled,
    /// Nothing was waiting and no read-ahead is pending.
    Idle,
    /// Every handle is gone; the engine stops.
    Stopped,
}

/// The per-file read engine: owns the fetcher, the buffer-pool cache and the
/// read-ahead queue for one open file, and consumes its request channel. All
/// of this state is mutated only by the engine itself.
#[verifier::reject_recursive_types(R)]
pub struct FileReadEngine<F, R> {
    fetcher: F,
    chunk_size: u64,
    readahead_queue_size: usize,
    cache_blocks: usize,
    buf_cache: BufferPool,
    readahead: VecDeque<u64>,
    rx: std::sync::mpsc::Receiver<FileReadRequest<R>>,
}

impl<F: ChunkFetcher, R: ReplySink> FileReadEngine<F, R> {
    /// The keyed cache contents: chunk start offset to that chunk's bytes.
    pub closed spec fn cached(self) -> Map<u64, Seq<u8>> {
        pool_entries(self.buf_cache)
    }

    /// How many free buffers the pool holds for the next fetch.
    pub closed spec fn free_buffers(self) -> nat {
        pool_free(self.buf_cache)
    }

    /// The pending read-ahead chunk offsets, front first.
    pub closed spec fn queue(self) -> Seq<u64> {
        self.readahead@
    }

    /// The size of one chunk in bytes.
    pub closed spec fn chunk_size_spec(self) -> u64 {
        self.chunk_size
    }

    /// The configured depth of the read-ahead queue.
    pub closed spec fn queue_depth(self) -> usize {
        self.readahead_queue_size
    }

    /// The configured number of chunk buffers.
    pub closed spec fn cache_blocks_spec(self) -> usize {
        self.cache_blocks
    }

    /// The fetcher's state; unchanged exactly when no fetch was issued.
    pub closed spec fn fetcher_view(self) -> F {
        self.fetcher
    }

    /// Whether the buffer pool was built with a usable heat bound; taking a
    /// buffer for a fetch relies on it.
    pub closed spec fn pool_heat_ok(self) -> bool {
        pool_heat_bound(self.buf_cache) >= 1
    }

    /// The cache after a failed fetch: nothing was added, and the buffer
    /// taken for the attempt is back on the free list. With a free buffer at
    /// hand no keyed entry was touched; with none, the single entry evicted
    /// to free a buffer — before the fetch ran — is the whole loss.
    pub open spec fn fetch_failed_cache(self, post: Self) -> bool {
        &&& post.free_buffers() >= 1
        &&& (self.free_buffers() >= 1 ==> post.cached() == self.cached())
        &&& self.cached().dom().len() <= post.cached().dom().len() + 1
    }

    /// The start offset of the chunk that would serve a read at `offset`.
    pub open spec fn chunk_of(self, offset: u64) -> int {
        chunk_start_of(offset, self.chunk_size_spec())
    }

    /// Whether a read at `offset` of `size` bytes crosses a chunk boundary
    /// and is therefore rejected.
    pub open spec fn rejects(self, offset: u64, size: u32) -> bool {
        spans_chunks(offset, size, self.chunk_size_spec())
    }

    /// Well-formedness: the configuration is usable; every buffer is either
    /// keyed or free (so the keyed set never exceeds the block count and a
    /// fetch always finds a buffer); and the queued read-ahead offsets are
    /// chunk-aligned and strictly increasing, one linear forward scan.
    pub open spec fn wf(self) -> bool {
        &&& self.chunk_size_spec() >= 1
        &&& self.cache_blocks_spec() >= 1
        &&& self.cached().dom().finite()
        &&& self.cached().dom().len() + self.free_buffers() == self.cache_blocks_spec()
        &&& queue_aligned(self.queue(), self.chunk_size_spec())
        &&& queue_increasing(self.queue())
        &&& self.pool_heat_ok()
    }

    /// Whether two engine states share chunk size, queue depth and block
    /// count.
    pub open spec fn same_config(self, other: Self) -> bool {
        &&& self.chunk_size_spec() == other.chunk_size_spec()
        &&& self.queue_depth() == other.queue_depth()
        &&& self.cache_blocks_spec() == other.cache_blocks_spec()
    }

    /// Builds an engine for one open file, with an empty cache seeded with
    /// `file_read_cache_blocks` reusable buffers and an empty read-ahead
    /// queue, and the handle through which readers reach it.
    pub fn new(fetcher: F, options: &FileReadOptions) -> (r: (FileReadEngine<F, R>, FileReadHandle<
        R,
    >))
        requires
            options.file_read_cache_blocks >= 1,
            options.read_block_multiplier >= 1,
        ensures
            r.0.wf(),
            r.0.cached() == Map::<u64, Seq<u8>>::empty(),
            r.0.queue() == Seq::<u64>::empty(),
            r.0.free_buffers() == options.file_read_cache_blocks,
            r.0.chunk_size_spec() as int == options.chunk_size_spec(),
            r.0.queue_depth() == options.readahead_queue_size,
            r.0.cache_blocks_spec() == options.file_read_cache_blocks,
            r.1.refs() == 0,
    {
        let chunk_size = options.chunk_size();
        let blocks = options.file_read_cache_blocks;
        let buffer_capacity: usize = chunk_size as usize;
        let mut buf_cache = pool_new(POOL_MAX_HEAT);
        proof {
            assert(pool_entries(buf_cache) =~= Map::<u64, Seq<u8>>::empty());
        }
        let mut i: usize = 0;
        while i < blocks
            invariant
                i <= blocks,
                pool_entries(buf_cache) == Map::<u64, Seq<u8>>::empty(),
                pool_free(buf_cache) == i,
                pool_heat_bound(buf_cache) == POOL_MAX_HEAT,
            decreases blocks - i,
        {
            pool_put(&mut buf_cache, Vec::with_capacity(buffer_capacity));
            i = i + 1;
        }
        let (tx, rx) = request_channel();
        let engine = FileReadEngine {
            fetcher,
            chunk_size,
            readahead_queue_size: options.readahead_queue_size,
            cache_blocks: blocks,
            buf_cache,
            readahead: VecDeque::new(),
            rx,
        };
        (engine, FileReadHandle::from_channel(tx))
    }

    /// Whether the chunk starting at `cs` is currently cached.
    pub fn is_chunk_cached(&self, cs: u64) -> (r: bool)
        ensures
            r == self.cached().dom().contains(cs),
    {
        pool_contains(&self.buf_cache, cs)
    }

    /// The size of one chunk in bytes.
    pub fn chunk_size(&self) -> (r: u64)
        ensures
            r == self.chunk_size_spec(),
    {
        self.chunk_size
    }

    /// The pending read-ahead chunk offsets, front first.
    #[verifier::loop_isolation(false)]
    pub fn readahead_offsets(&self) -> (r: Vec<u64>)
        ensures
            r@ == self.queue(),
    {
        let mut out: Vec<u64> = Vec::new();
        let mut i: usize = 0;
        while i < self.readahead.len()
            invariant
                i <= self.readahead@.len(),
                out@ == self.readahead@.subrange(0, i as int),
            decreases self.readahead@.len() - i,
        {
            out.push(self.readahead[i]);
            i = i + 1;
        }
        proof {
            assert(out@ =~= self.readahead@);
        }
        out
    }

    /// Handle one request end to end: reject a cross-chunk span outright,
    /// fetch the chunk on a miss (clearing the read-ahead queue first when a
    /// user request missed), answer a user request from the cached chunk, and
    /// rebuild the read-ahead queue behind a served user request.
    ///
    /// A failed fetch fails only the request that caused it. Its one possible
    /// mark on the cache comes from before the fetch: with no free buffer
    /// left, the buffer for the attempt is freed by evicting one cached
    /// chunk, and the pool cannot re-key a buffer it already handed out —
    /// `fetch_failed_cache` bounds the loss to exactly that entry.
    #[verifier::loop_isolation(false)]
    pub fn handle_request(&mut self, req: FileReadRequest<R>)
        requires
            old(self).wf(),
        ensures
            final(self).wf(),
            old(self).same_config(*final(self)),
            // a rejected cross-chunk request changes nothing and never
            // reaches the fetcher
            old(self).rejects(req.offset_spec(), req.size_spec()) ==> {
                &&& final(self).cached() == old(self).cached()
                &&& final(self).free_buffers() == old(self).free_buffers()
                &&& final(self).queue() == old(self).queue()
                &&& final(self).fetcher_view() == old(self).fetcher_view()
            },
            // a request for an already-cached chunk is served without a fetch
            !old(self).rejects(req.offset_spec(), req.size_spec()) && old(self).cached().dom()
                .contains(old(self).chunk_of(req.offset_spec()) as u64) ==> {
                &&& final(self).cached() == old(self).cached()
                &&& final(self).free_buffers() == old(self).free_buffers()
                &&& final(self).fetcher_view() == old(self).fetcher_view()
            },
            // read-ahead requests never touch the queue
            req.is_readahead_spec() ==> final(self).queue() == old(self).queue(),
            // a speculative request exists solely to warm the cache: when its
            // chunk was missing, afterwards either that chunk is cached, or
            // its fetch failed and the taken buffer is free again
            !old(self).rejects(req.offset_spec(), req.size_spec()) && req.is_readahead_spec()
                && !old(self).cached().dom().contains(
                old(self).chunk_of(req.offset_spec()) as u64,
            ) ==> {
                ||| final(self).cached().dom().contains(
                    old(self).chunk_of(req.offset_spec()) as u64,
                )
                ||| {
                    &&& !final(self).cached().dom().contains(
                        old(self).chunk_of(req.offset_spec()) as u64,
                    )
                    &&& old(self).fetch_failed_cache(*final(self))
                }
            },
            // no cache entry besides the requested chunk's appears or changes
            cache_preserved_except(
                old(self).cached(),
                final(self).cached(),
                old(self).chunk_of(req.offset_spec()) as u64,
            ),
            // a user request inside one chunk ends in one of two ways: it was
            // served from the (now) cached chunk and the read-ahead queue was
            // rebuilt behind it, or its fetch failed and the queue is empty
            !old(self).rejects(req.offset_spec(), req.size_spec()) && !req.is_readahead_spec()
                ==> {
                ||| {
                    &&& final(self).cached().dom().contains(
                        old(self).chunk_of(req.offset_spec()) as u64,
                    )
                    &&& final(self).queue() == readahead_plan(
                        final(self).cached().dom(),
                        old(self).chunk_of(req.offset_spec()),
                        old(self).chunk_size_spec() as int,
                        old(self).queue_depth() as nat,
                    )
                }
                ||| {
                    &&& !final(self).cached().dom().contains(
                        old(self).chunk_of(req.offset_spec()) as u64,
                    )
                    &&& final(self).queue().len() == 0
                    &&& old(self).fetch_failed_cache(*final(self))
                }
            },
    {
        let chunk = self.chunk_size;
        let offset = req.offset();
        let size = req.size();
        let cs = chunk_start(offset, chunk);
        if request_spans_chunks(offset, size, chunk) {
            req.error(ReadError::UnsupportedSpan);
            return ;
        }
        let is_ra = req.is_readahead();
        if !pool_contains(&self.buf_cache, cs) {
            // a user-request miss invalidates the speculative trajectory
            if !is_ra {
                self.readahead.clear();
            }
            proof {
                if pool_free(self.buf_cache) == 0 {
                    assert(exists|k: u64| pool_entries(self.buf_cache).dom().contains(k)) by {
                        if forall|k: u64| !pool_entries(self.buf_cache).dom().contains(k) {
                            assert(pool_entries(self.buf_cache).dom() =~= Set::<u64>::empty());
                        }
                    }
                }
            }
            let taken = pool_take(&mut self.buf_cache);
            let mut buf = taken.unwrap();
            buf.clear();
            let fetched = self.fetcher.fetch(cs, chunk, &mut buf);
            match fetched {
                Ok(()) => {
                    pool_insert(&mut self.buf_cache, cs, buf);
                },
                Err(e) => {
                    pool_put(&mut self.buf_cache, buf);
                    req.error(ReadError::Io(e));
                    return ;
                },
            }
        }
        if is_ra {
            return ;
        }
        let data = {
            let got = pool_get(&self.buf_cache, cs);
            let chunk_data = got.unwrap();
            reply_bytes(chunk_data, offset, size, cs)
        };
        req.data(data.as_slice());
        self.rebuild_readahead(cs);
    }

    /// Replaces the read-ahead queue with the schedule behind the chunk at
    /// `cs` that was just served: up to the configured depth of chunk-aligned
    /// offsets past `cs`, skipping chunks that are already cached.
    #[verifier::loop_isolation(false)]
    fn rebuild_readahead(&mut self, cs: u64)
        requires
            old(self).wf(),
            cs as int % old(self).chunk_size_spec() as int == 0,
        ensures
            final(self).wf(),
            old(self).same_config(*final(self)),
            final(self).cached() == old(self).cached(),
            final(self).free_buffers() == old(self).free_buffers(),
            final(self).fetcher_view() == old(self).fetcher_view(),
            final(self).queue() == readahead_plan(
                old(self).cached().dom(),
                cs as int,
                old(self).chunk_size_spec() as int,
                old(self).queue_depth() as nat,
            ),
    {
        let chunk = self.chunk_size;
        let depth = self.readahead_queue_size;
        self.readahead.clear();
        let mut fits: bool = cs <= u64::MAX - chunk;
        let mut next: u64 = if fits {
            cs + chunk
        } else {
            0
        };
        let mut k: usize = 0;
        proof {
            assert((0int + 1) * (chunk as int) == chunk as int) by (nonlinear_arith);
        }
        while k < depth
            invariant
                k <= depth,
                self.readahead@ == readahead_plan(
                    old(self).cached().dom(),
                    cs as int,
                    chunk as int,
                    k as nat,
                ),
                fits <==> cs as int + (k as int + 1) * (chunk as int) <= u64::MAX as int,
                fits ==> next as int == cs as int + (k as int + 1) * (chunk as int),
                self.buf_cache == old(self).buf_cache,
                self.fetcher == old(self).fetcher,
                self.chunk_size == old(self).chunk_size,
                self.readahead_queue_size == old(self).readahead_queue_size,
                self.cache_blocks == old(self).cache_blocks,
            decreases depth - k,
        {
            proof {
                assert((k as int + 1) * (chunk as int) == k as int * (chunk as int)
                    + chunk as int) by (nonlinear_arith);
                assert((k as int + 2) * (chunk as int) == (k as int + 1) * (chunk as int)
                    + chunk as int) by (nonlinear_arith);
            }
            if fits {
                if !pool_contains(&self.buf_cache, next) {
                    self.readahead.push_back(next);
                }
                if next <= u64::MAX - chunk {
                    next = next + chunk;
                } else {
                    fits = false;
                }
            }
            k = k + 1;
        }
        proof {
            lemma_readahead_plan_wf(
                old(self).cached().dom(),
                cs as int,
                chunk as int,
                depth as nat,
            );
        }
    }

    /// Takes the front of the read-ahead queue as a speculative full-chunk
    /// request, when one is pending.
    fn next_readahead_request(&mut self) -> (r: Option<FileReadRequest<R>>)
        requires
            old(self).wf(),
        ensures
            final(self).wf(),
            old(self).same_config(*final(self)),
            final(self).cached() == old(self).cached(),
            final(self).free_buffers() == old(self).free_buffers(),
            final(self).fetcher_view() == old(self).fetcher_view(),
            r is None ==> old(self).queue().len() == 0 && final(self).queue() == old(self).queue(),
            r matches Some(q) ==> {
                &&& old(self).queue().len() > 0
                &&& q.offset_spec() == old(self).queue()[0]
                &&& q.is_readahead_spec()
                &&& final(self).queue() == old(self).queue().subrange(
                    1,
                    old(self).queue().len() as int,
                )
            },
    {
        match self.readahead.pop_front() {
            Some(offset) => {
                let size: u32 = if self.chunk_size > (u32::MAX as u64) {
                    u32::MAX
                } else {
                    self.chunk_size as u32
                };
                Some(FileReadRequest::readahead(offset, size))
            },
            None => None,
        }
    }

    /// One scheduling step: a waiting request is preferred; with none
    /// waiting, one pending read-ahead is consumed; with neither, the engine
    /// reports itself idle (the caller then blocks on the channel) or stopped
    /// once every handle is gone.
    pub fn poll_once(&mut self) -> (r: EngineStep)
        requires
            old(self).wf(),
        ensures
            final(self).wf(),
            old(self).same_config(*final(self)),
            r == EngineStep::Idle || r == EngineStep::Stopped ==> {
                &&& final(self).cached() == old(self).cached()
                &&& final(self).free_buffers() == old(self).free_buffers()
                &&& final(self).queue() == old(self).queue()
                &&& final(self).fetcher_view() == old(self).fetcher_view()
            },
            r == EngineStep::Idle ==> old(self).queue().len() == 0,
    {
        match poll_request(&self.rx) {
            PollOutcome::Ready(req) => {
                self.handle_request(req);
                EngineStep::Handled
            },
            PollOutcome::Disconnected => EngineStep::Stopped,
            PollOutcome::Empty => {
                match self.next_readahead_request() {
                    Some(req) => {
                        self.handle_request(req);
                        EngineStep::Handled
                    },
                    None => EngineStep::Idle,
                }
            },
        }
    }

    /// Blocks until the next request arrives and handles it; reports false,
    /// with nothing changed, when every handle is gone and the engine must
    /// stop — channel closure is the engine's only shutdown path. The loop
    /// that alternates `poll_once` with this call lives with the thread that
    /// runs the engine.
    pub fn wait_once(&mut self) -> (r: bool)
        requires
            old(self).wf(),
        ensures
            final(self).wf(),
            old(self).same_config(*final(self)),
            !r ==> {
                &&& final(self).cached() == old(self).cached()
                &&& final(self).free_buffers() == old(self).free_buffers()
                &&& final(self).queue() == old(self).queue()
                &&& final(self).fetcher_view() == old(self).fetcher_view()
            },
    {
        match wait_request(&self.rx) {
            Some(req) => {
                self.handle_request(req);
                true
            },
            None => false,
        }
    }
}

/// The cache never holds more keyed chunks than the configured block count:
/// every buffer beyond those is on the free list, and inserting when no free
/// buffer remains first evicts one keyed entry to reuse its buffer.
pub proof fn lemma_cache_bounded<F: ChunkFetcher, R: ReplySink>(e: FileReadEngine<F, R>)
    requires
        e.wf(),
    ensures
        e.cached().dom().len() <= e.cache_blocks_spec(),
{
}

/// A request fully inside a cached, chunk-aligned range `[c, c + chunk_size)`
/// is not rejected and resolves to that cached chunk — so by
/// `handle_request`'s contract it is served with the cache, the free list
/// and the fetcher untouched: no second fetch.
pub proof fn lemma_cached_request_needs_no_fetch<F: ChunkFetcher, R: ReplySink>(
    e: FileReadEngine<F, R>,
    c: u64,
    offset: u64,
    size: u32,
)
    requires
        e.wf(),
        c as int % e.chunk_size_spec() as int == 0,
        c <= offset,
        offset < c + e.chunk_size_spec(),
        offset + size <= c + e.chunk_size_spec(),
        e.cached().dom().contains(c),
    ensures
        !e.rejects(offset, size),
        e.chunk_of(offset) == c,
        e.cached().dom().contains(e.chunk_of(offset) as u64),
{
    crate::chunk::lemma_in_chunk_not_spanning(c, offset, size, e.chunk_size_spec());
}

} // verus!
