use vstd::prelude::*;

verus! {

#[verifier::external_type_specification]
#[verifier::external_body]
#[verifier::reject_recursive_types(Key)]
#[verifier::reject_recursive_types(Value)]
pub struct ExPoolCache<Key, Value>(poolcache::PoolCache<Key, Value>);

/// A pool of reusable chunk buffers keyed by chunk start offset.
pub type BufferPool = poolcache::PoolCache<u64, Vec<u8>>;

/// The keyed entries of a buffer pool: chunk start offset to cached bytes.
pub uninterp spec fn pool_entries(c: BufferPool) -> Map<u64, Seq<u8>>;

/// How many free (unkeyed) buffers a buffer pool holds for reuse.
pub uninterp spec fn pool_free(c: BufferPool) -> nat;

/// The heat bound the pool was built with. Eviction walks a clock that cools
/// entries step by step, so it needs a bound of at least 1: with a bound of 0
/// a looked-up entry sits at heat 0 already and the cooling step would fall
/// below zero.
pub uninterp spec fn pool_heat_bound(c: BufferPool) -> u64;

/// Relies on poolcache::PoolCache::new: a fresh pool has no keyed entries, no
/// free values, and the given heat bound.
#[verifier::external_body]
pub(crate) fn pool_new(max_heat: u64) -> (c: BufferPool)
    requires
        max_heat >= 1,
    ensures
        pool_free(c) == 0,
        forall|k: u64| !pool_entries(c).dom().contains(k),
        pool_heat_bound(c) == max_heat,
{
    poolcache::PoolCache::new(max_heat)
}

/// Relies on poolcache::PoolCache::contains_key: tells whether `key` is keyed
/// in the pool's cache.
#[verifier::external_body]
pub(crate) fn pool_contains(c: &BufferPool, key: u64) -> (r: bool)
    ensures
        r == pool_entries(*c).dom().contains(key),
{
    c.contains_key(&key)
}

/// Relies on poolcache::PoolCache::get: returns the value keyed under `key`,
/// or None when the key is absent.
#[verifier::external_body]
pub(crate) fn pool_get<'a>(c: &'a BufferPool, key: u64) -> (r: Option<
    &'a Vec<u8>,
>)
    ensures
        match r {
            Some(v) => pool_entries(*c).dom().contains(key) && v@ == pool_entries(*c)[key],
            None => !pool_entries(*c).dom().contains(key),
        },
{
    c.get(&key)
}

/// Relies on poolcache::PoolCache::put: hands an unkeyed value to the pool's
/// free list; keyed entries are untouched.
#[verifier::external_body]
pub(crate) fn pool_put(c: &mut BufferPool, val: Vec<u8>)
    ensures
        pool_entries(*final(c)) == pool_entries(*old(c)),
        pool_free(*final(c)) == pool_free(*old(c)) + 1,
        pool_heat_bound(*final(c)) == pool_heat_bound(*old(c)),
{
    c.put(val)
}

/// Relies on poolcache::PoolCache::insert: keys `val` under `key`; a value
/// displaced from the same key moves to the free list.
#[verifier::external_body]
pub(crate) fn pool_insert(c: &mut BufferPool, key: u64, val: Vec<u8>)
    ensures
        pool_entries(*final(c)) == pool_entries(*old(c)).insert(key, val@),
        pool_free(*final(c)) == pool_free(*old(c)) + (if pool_entries(*old(c)).dom().contains(key) {
            1int
        } else {
            0int
        }),
        pool_heat_bound(*final(c)) == pool_heat_bound(*old(c)),
{
    c.insert(key, val)
}

/// Relies on poolcache::PoolCache::take: prefers a free value; with no free
/// value it evicts some keyed entry (the least used by its clock discipline)
/// and returns that entry's value; returns None only when the pool holds
/// nothing at all. With a heat bound of at least 1 every live entry stays at
/// heat 1 or more, so the eviction walk always cools some entry to exactly 0
/// and returns.
#[verifier::external_body]
pub(crate) fn pool_take(c: &mut BufferPool) -> (r: Option<Vec<u8>>)
    requires
        pool_heat_bound(*old(c)) >= 1,
    ensures
        pool_heat_bound(*final(c)) == pool_heat_bound(*old(c)),
        pool_free(*old(c)) > 0 ==> {
            &&& r is Some
            &&& pool_free(*final(c)) == pool_free(*old(c)) - 1
            &&& pool_entries(*final(c)) == pool_entries(*old(c))
        },
        pool_free(*old(c)) == 0 && (exists|k: u64|
            pool_entries(*old(c)).dom().contains(k)) ==> {
            &&& r is Some
            &&& pool_free(*final(c)) == 0
            &&& exists|k: u64|
                #[trigger] pool_entries(*old(c)).dom().contains(k) && pool_entries(*final(c))
                    == pool_entries(*old(c)).remove(k)
        },
        pool_free(*old(c)) == 0 && (forall|k: u64|
            !pool_entries(*old(c)).dom().contains(k)) ==> {
            &&& r is None
            &&& pool_free(*final(c)) == 0
            &&& pool_entries(*final(c)) == pool_entries(*old(c))
        },
{
    c.take()
}

} // verus!
