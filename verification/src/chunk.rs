use vstd::prelude::*;

verus! {

/// The start offset of the chunk that contains `offset`: the largest multiple
/// of `chunk_size` that is at most `offset`.
pub open spec fn chunk_start_of(offset: u64, chunk_size: u64) -> int
    recommends
        chunk_size >= 1,
{
    (offset as int / chunk_size as int) * chunk_size as int
}

/// Whether the byte range `[offset, offset + size)` crosses the boundary of
/// the chunk that contains `offset`. Such requests are rejected, never split.
pub open spec fn spans_chunks(offset: u64, size: u32, chunk_size: u64) -> bool
    recommends
        chunk_size >= 1,
{
    offset + size > chunk_start_of(offset, chunk_size) + chunk_size
}

/// Computes the start offset of the chunk containing `offset`.
pub fn chunk_start(offset: u64, chunk_size: u64) -> (r: u64)
    requires
        chunk_size >= 1,
    ensures
        r == chunk_start_of(offset, chunk_size),
        r <= offset,
        offset < r + chunk_size,
        r as int % chunk_size as int == 0,
{
    proof {
        vstd::arithmetic::div_mod::lemma_fundamental_div_mod(offset as int, chunk_size as int);
        vstd::arithmetic::div_mod::lemma_mod_bound(offset as int, chunk_size as int);
        vstd::arithmetic::div_mod::lemma_mod_multiples_basic(
            offset as int / chunk_size as int,
            chunk_size as int,
        );
        vstd::arithmetic::mul::lemma_mul_is_commutative(
            offset as int / chunk_size as int,
            chunk_size as int,
        );
    }
    (offset / chunk_size) * chunk_size
}

/// Decides whether `[offset, offset + size)` crosses a chunk boundary.
pub fn request_spans_chunks(offset: u64, size: u32, chunk_size: u64) -> (r: bool)
    requires
        chunk_size >= 1,
    ensures
        r == spans_chunks(offset, size, chunk_size),
{
    let cs = chunk_start(offset, chunk_size);
    let room = chunk_size - (offset - cs);
    (size as u64) > room
}

/// The last byte offset of a range read of `size` bytes at `start`, in the
/// inclusive convention of HTTP ranges: `start..=range_end_inclusive(..)`
/// covers exactly `size` bytes, so a range of 0 to 499 reads 500 bytes.
pub fn range_end_inclusive(start: u64, size: u64) -> (r: u64)
    requires
        size >= 1,
        start + size - 1 <= u64::MAX,
    ensures
        r == start + size - 1,
{
    start + (size - 1)
}

/// A request fully inside a cached, chunk-aligned range `[c, c + chunk_size)`
/// resolves to exactly that chunk and does not cross its boundary.
pub proof fn lemma_in_chunk_not_spanning(c: u64, offset: u64, size: u32, chunk_size: u64)
    requires
        chunk_size >= 1,
        c as int % chunk_size as int == 0,
        c <= offset,
        offset < c + chunk_size,
        offset + size <= c + chunk_size,
    ensures
        chunk_start_of(offset, chunk_size) == c,
        !spans_chunks(offset, size, chunk_size),
{
    let s = chunk_size as int;
    let q = c as int / s;
    assert(c as int == q * s) by {
        vstd::arithmetic::div_mod::lemma_fundamental_div_mod(c as int, s);
        vstd::arithmetic::mul::lemma_mul_is_commutative(q, s);
    }
    assert(offset as int / s == q) by {
        assert(q * s <= offset < q * s + s);
        vstd::arithmetic::div_mod::lemma_fundamental_div_mod_converse(
            offset as int,
            s,
            q,
            offset as int - q * s,
        );
    }
}

/// The bytes a user request receives out of its chunk's cached buffer: the
/// window of `chunk` starting `lo` bytes in, at most `n` bytes long, cut to
/// the buffer's actual length (a short final chunk yields a short read).
pub open spec fn served_bytes(chunk: Seq<u8>, lo: int, n: int) -> Seq<u8>
    recommends
        0 <= lo,
        0 <= n,
{
    if lo >= chunk.len() {
        Seq::empty()
    } else if lo + n >= chunk.len() {
        chunk.subrange(lo, chunk.len() as int)
    } else {
        chunk.subrange(lo, lo + n)
    }
}

/// Copies out the bytes served for a request at `offset` of `size` bytes,
/// from the cached buffer of the chunk starting at `cs`.
pub fn reply_bytes(chunk: &Vec<u8>, offset: u64, size: u32, cs: u64) -> (r: Vec<u8>)
    requires
        cs <= offset,
    ensures
        r@ == served_bytes(chunk@, offset - cs, size as int),
{
    let lo64: u64 = offset - cs;
    let len: usize = chunk.len();
    if lo64 >= len as u64 {
        return Vec::new();
    }
    let lo: usize = lo64 as usize;
    let hi: usize = if (size as u64) < (len - lo) as u64 {
        lo + (size as usize)
    } else {
        len
    };
    let mut out: Vec<u8> = Vec::new();
    let mut i: usize = lo;
    while i < hi
        invariant
            lo <= i <= hi <= len,
            len == chunk@.len(),
            out@ == chunk@.subrange(lo as int, i as int),
        decreases hi - i,
    {
        out.push(chunk[i]);
        proof {
            assert(out@ == chunk@.subrange(lo as int, i + 1));
        }
        i = i + 1;
    }
    proof {
        assert(out@ == served_bytes(chunk@, offset - cs, size as int));
    }
    out
}

} // verus!
