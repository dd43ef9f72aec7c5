//! Recently unloaded chunks kept in memory, so that walking back does not regenerate
//! them: a bounded cache of `quick_cache` that may drop any entry to make room.
use vstd::prelude::*;

use quick_cache::sync::Cache;

use crate::chunk::{Chunk, ChunkView};

verus! {

/// How many unloaded chunks the cache keeps, about.
pub const CHUNK_CACHE_CAPACITY: usize = 512;

/// A bounded cache of chunks by chunk key. The `quick_cache` cache it holds is hidden
/// from verification; its contents are known through [`cached_chunks`].
#[verifier::external_body]
pub struct ChunkCache {
    cache: Cache<u64, Chunk>,
}

/// The chunks the cache holds, by chunk key.
pub uninterp spec fn cached_chunks(c: ChunkCache) -> Map<u64, ChunkView>;

/// What a cache may hold after `key` was inserted with `chunk`: nothing but what it held
/// before and the new entry; any entry, the new one included, may be gone.
pub open spec fn kept_after_insert(before: Map<u64, ChunkView>, after: Map<u64, ChunkView>, key: u64, chunk: ChunkView) -> bool {
    forall|k: u64| #[trigger] after.contains_key(k) ==> if k == key {
        after[k] == chunk
    } else {
        before.contains_key(k) && after[k] == before[k]
    }
}

/// Calls `quick_cache::sync::Cache::new`. Trusted: a new cache holds nothing.
#[verifier::external_body]
fn cache_new(capacity: usize) -> (r: ChunkCache)
    ensures
        cached_chunks(r).dom().is_empty(),
{
    ChunkCache { cache: Cache::new(capacity) }
}

/// Calls `quick_cache::sync::Cache::get`. Trusted: the chunk under the key is returned
/// (a clone of it) exactly when the cache holds one; what the cache holds does not change.
#[verifier::external_body]
fn cache_get(c: &ChunkCache, key: u64) -> (r: Option<Chunk>)
    ensures
        r is Some <==> cached_chunks(*c).contains_key(key),
        r matches Some(ch) ==> ch@ == cached_chunks(*c)[key],
{
    c.cache.get(&key)
}

/// Calls `quick_cache::sync::Cache::insert`. Trusted: afterwards the cache holds nothing
/// it did not hold before or was given now; to make room it may have dropped any entry,
/// the new one included. Which entries it drops is not stated.
#[verifier::external_body]
fn cache_insert(c: &mut ChunkCache, key: u64, chunk: Chunk)
    ensures
        kept_after_insert(cached_chunks(*old(c)), cached_chunks(*final(c)), key, chunk@),
{
    c.cache.insert(key, chunk)
}

impl ChunkCache {
    /// An empty cache for about [`CHUNK_CACHE_CAPACITY`] chunks.
    pub fn new() -> (r: ChunkCache)
        ensures
            cached_chunks(r).dom().is_empty(),
    {
        cache_new(CHUNK_CACHE_CAPACITY)
    }

    /// The cached chunk under a key, if the cache still holds it.
    pub fn get(&self, key: u64) -> (r: Option<Chunk>)
        ensures
            r is Some <==> cached_chunks(*self).contains_key(key),
            r matches Some(ch) ==> ch@ == cached_chunks(*self)[key],
    {
        cache_get(self, key)
    }

    /// Keeps a chunk under a key; any entry may be dropped to make room.
    pub fn insert(&mut self, key: u64, chunk: Chunk)
        ensures
            kept_after_insert(cached_chunks(*old(self)), cached_chunks(*final(self)), key, chunk@),
    {
        cache_insert(self, key, chunk)
    }
}

} // verus!
