use vstd::prelude::*;

use std::sync::Arc;
use vstd::rwlock::{RwLock, RwLockPredicate};

use crate::clock::epoch_now;
use crate::store::Store;
use crate::CacheError;
use crate::Cashier;
use epoch_timestamp::Epoch;

verus! {

/// The lock invariant of the in-process store. Any store value is a valid
/// one — the map's contracts carry all the meaning — so the invariant asks
/// nothing of it.
pub struct StoreInv {}

impl RwLockPredicate<Store> for StoreInv {
    open spec fn inv(self, v: Store) -> bool {
        true
    }
}

/// Relies on Arc::clone: the returned handle refers to the same allocation
/// as the argument, so both are handles to the one value.
#[verifier::external_body]
fn arc_clone<T>(a: &Arc<T>) -> (r: Arc<T>)
    ensures
        r == *a,
{
    Arc::clone(a)
}

/// The in-process backend: one shared mapping from key to record behind a
/// readers-writer lock, so reads of distinct callers run concurrently while
/// writes serialize against everything. Expiry is evaluated lazily at each
/// read against a clock sampled once per call; nothing sweeps in the
/// background.
pub struct MemoryCashier {
    cache: Arc<RwLock<Store, StoreInv>>,
}

impl MemoryCashier {
    /// The shared store behind this handle. Clones of one handle agree on
    /// it, so a write through any of them is visible through all.
    pub closed spec fn backing(&self) -> Arc<RwLock<Store, StoreInv>> {
        self.cache
    }

    /// A fresh cache with an empty store.
    pub fn new() -> Self {
        MemoryCashier { cache: Arc::new(RwLock::new(Store::new(), Ghost(StoreInv {}))) }
    }

    /// Insert or replace the entry for `key` with no deadline, under the
    /// write lock. Never fails: the verified lock cannot be poisoned.
    pub fn set(&self, key: &str, value: &str) -> (r: Result<(), CacheError>)
        ensures
            r is Ok,
    {
        let (mut store, handle) = self.cache.acquire_write();
        store.set(key, value);
        handle.release_write(store);
        Ok(())
    }

    /// Insert or replace the entry for `key` with a deadline `ttl` seconds
    /// from now (saturating at the largest representable instant), under
    /// the write lock. A `ttl` of zero writes a deadline that has already
    /// passed by the time of any later read. Never fails.
    pub fn set_with_ttl(&self, key: &str, value: &str, ttl: u64) -> (r: Result<(), CacheError>)
        ensures
            r is Ok,
    {
        let now = epoch_now();
        let deadline = now.saturating_add(Epoch::second(ttl));
        let (mut store, handle) = self.cache.acquire_write();
        store.set_with_deadline(key, value, deadline);
        handle.release_write(store);
        Ok(())
    }

    /// Read `key` under the read lock, against one clock sample taken for
    /// the whole call: the payload if the entry is live at that instant,
    /// `None` if the key is absent or expired. Expiry is never an error,
    /// and the call itself never fails.
    pub fn get(&self, key: &str) -> (r: Result<Option<String>, CacheError>)
        ensures
            r is Ok,
    {
        let now = epoch_now();
        let handle = self.cache.acquire_read();
        let value = handle.borrow().get(key, now);
        handle.release_read();
        Ok(value)
    }

    /// Remove the entry for `key` under the write lock; a no-op, not an
    /// error, when the key is absent. Never fails.
    pub fn delete(&self, key: &str) -> (r: Result<(), CacheError>)
        ensures
            r is Ok,
    {
        let (mut store, handle) = self.cache.acquire_write();
        store.delete(key);
        handle.release_write(store);
        Ok(())
    }

    /// Remove every entry, atomically with respect to the whole map: a
    /// racing reader observes the store before or after the clear, never a
    /// partially emptied one. Never fails.
    pub fn clear(&self) -> (r: Result<(), CacheError>)
        ensures
            r is Ok,
    {
        let (mut store, handle) = self.cache.acquire_write();
        store.clear();
        handle.release_write(store);
        Ok(())
    }
}

impl Clone for MemoryCashier {
    /// The clone shares the underlying store with `self`; it is a second
    /// handle, not a copy of the map.
    fn clone(&self) -> (r: Self)
        ensures
            r.backing() == self.backing(),
    {
        MemoryCashier { cache: arc_clone(&self.cache) }
    }
}

impl Cashier for MemoryCashier {
    fn set(&self, key: &str, value: &str) -> Result<(), CacheError> {
        MemoryCashier::set(self, key, value)
    }

    fn set_with_ttl(&self, key: &str, value: &str, ttl: u64) -> Result<(), CacheError> {
        MemoryCashier::set_with_ttl(self, key, value, ttl)
    }

    fn get(&self, key: &str) -> Result<Option<String>, CacheError> {
        MemoryCashier::get(self, key)
    }

    fn delete(&self, key: &str) -> Result<(), CacheError> {
        MemoryCashier::delete(self, key)
    }

    fn clear(&self) -> Result<(), CacheError> {
        MemoryCashier::clear(self)
    }
}

} // verus!
