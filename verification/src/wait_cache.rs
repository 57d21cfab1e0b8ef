//! A cache on which a reader can wait for a key that is not there yet.

use vstd::prelude::*;
use std::hash::Hash;
use std::sync::Arc;
use std::time::Duration;
use async_cell::sync::AsyncCell;
use async_cell::sync::Get;
use moka::sync::Cache;

verus! {

/// `moka::sync::Cache`, carried as an opaque value.
#[verifier::external_type_specification]
#[verifier::external_body]
#[verifier::reject_recursive_types(K)]
#[verifier::reject_recursive_types(V)]
#[verifier::reject_recursive_types(S)]
pub struct ExCache<K, V, S>(Cache<K, V, S>);

/// `async_cell::sync::AsyncCell`, carried as an opaque value.
#[verifier::external_type_specification]
#[verifier::external_body]
#[verifier::reject_recursive_types(T)]
pub struct ExAsyncCell<T>(AsyncCell<T>);

/// `async_cell::sync::Get`, the future of a reader, carried as an opaque
/// value.
#[verifier::external_type_specification]
#[verifier::external_body]
#[verifier::reject_recursive_types(C)]
pub struct ExGet<C>(Get<C>);

/// The longest time to live that a cache can be built with, in milliseconds:
/// 1000 years of 365 days.
pub const MAX_TIME_TO_LIVE_MS: u64 = 31_536_000_000_000;

/// `Cache::builder`, `CacheBuilder::time_to_live` and `CacheBuilder::build` of
/// moka. `build` panics on a time to live of more than 1000 years, which the
/// precondition leaves out. Nothing is claimed of the cache.
#[verifier::external_body]
fn cache_with_time_to_live<K, V>(time_to_live_ms: u64) -> Cache<K, V> where
    K: Hash + Eq + Send + Sync + 'static,
    V: Clone + Send + Sync + 'static,
    requires
        time_to_live_ms <= MAX_TIME_TO_LIVE_MS,
{
    Cache::builder().time_to_live(Duration::from_millis(time_to_live_ms)).build()
}

/// `Cache::get_with` of moka with `AsyncCell::shared` as the initialiser: the
/// cell under the key, made empty where the cache holds none. Which cell comes
/// back depends on what other threads did and on the time, so nothing is
/// claimed of it.
#[verifier::external_body]
fn cache_cell<K, V>(cache: &Cache<K, Arc<AsyncCell<V>>>, key: K) -> Arc<AsyncCell<V>> where
    K: Hash + Eq + Send + Sync + 'static,
    V: Clone + Send + Sync + 'static,
{
    cache.get_with(key, AsyncCell::shared)
}

/// `AsyncCell::set` of async_cell: fills the cell and wakes the futures that
/// wait on it.
#[verifier::external_body]
fn cell_set<V>(cell: &Arc<AsyncCell<V>>, value: V) {
    cell.set(value)
}

/// `AsyncCell::get_shared` of async_cell: a future that resolves to a clone of
/// the value once the cell is full.
#[verifier::external_body]
fn cell_get_shared<V: Clone>(cell: &Arc<AsyncCell<V>>) -> Get<Arc<AsyncCell<V>>> {
    cell.get_shared()
}

/// A cache of cells, one per key. A cell is empty until the first `put` on its
/// key and full from then on; readers of an empty cell wait on it and are all
/// released by that `put` with the same value. A cell leaves the cache once
/// its time to live, counted from the moment it was made, is over.
///
/// The cells live in moka's cache and are async_cell's cells: what they do
/// depends on the time and on what other threads do, and no contract here
/// speaks of it.
#[verifier::reject_recursive_types(K)]
#[verifier::reject_recursive_types(V)]
pub struct WaitCache<K, V> {
    cache: Cache<K, Arc<AsyncCell<V>>>,
    time_to_live_ms: u64,
}

impl<K: Eq + Send + Sync + Hash + 'static, V: Clone + Sync + Send + 'static> WaitCache<K, V> {
    /// Creates a wait cache whose cells stay for `time_to_live_ms`
    /// milliseconds.
    pub fn new(time_to_live_ms: u64) -> (cache: Self)
        requires
            time_to_live_ms <= MAX_TIME_TO_LIVE_MS,
        ensures
            cache.spec_time_to_live_ms() == time_to_live_ms,
    {
        WaitCache { cache: cache_with_time_to_live(time_to_live_ms), time_to_live_ms }
    }

    /// The time to live that the cache was made with, in milliseconds.
    pub closed spec fn spec_time_to_live_ms(&self) -> u64 {
        self.time_to_live_ms
    }

    /// The time to live that the cache was made with, in milliseconds.
    pub fn time_to_live_ms(&self) -> (ms: u64)
        ensures
            ms == self.spec_time_to_live_ms(),
    {
        self.time_to_live_ms
    }

    /// Puts a value under a key and releases the readers that wait on the key.
    /// Never blocks.
    pub fn put(&self, key: K, value: V) {
        let cell = cache_cell(&self.cache, key);
        cell_set(&cell, value);
    }

    /// Attaches a reader to the key's cell. The future that comes back resolves
    /// with the value as soon as the cell is full, at once if it is full
    /// already. The caller bounds the wait.
    pub fn waiter(&self, key: K) -> Get<Arc<AsyncCell<V>>> {
        let cell = cache_cell(&self.cache, key);
        cell_get_shared(&cell)
    }
}

} // verus!
