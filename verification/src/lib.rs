use vstd::prelude::*;

pub mod clock;
pub mod memory;
pub mod redis;
pub mod store;

verus! {

/// Why a cache operation failed. Expiry is never an error: an expired key
/// reads as absent, exactly like one that was never set.
#[derive(Clone, Copy, Debug, PartialEq, Eq, Structural)]
pub enum CacheError {
    /// The backend handle is missing required setup, such as an active
    /// connection; the operation did nothing.
    NotConnected,
    /// The in-process lock could not be acquired in a valid state. The
    /// verified in-process store builds on a lock that cannot be poisoned,
    /// so it never returns this; it is part of the contract for backends
    /// whose synchronization can fail.
    SyncFailure,
    /// A transport- or protocol-level failure of a remote backend,
    /// propagated as a failure, never downgraded to an absent value.
    Backend,
}

/// An entry with deadline `d` (epoch seconds) is expired at instant `now`
/// exactly when the deadline is at or before `now`.
pub open spec fn deadline_passed(d: u64, now: u64) -> bool {
    d <= now
}

/// Deadline check shared by every backend that stores an absolute expiry.
pub fn is_deadline_passed(d: u64, now: u64) -> (r: bool)
    ensures
        r == deadline_passed(d, now),
{
    d <= now
}

/// The five cache operations every backend implements with the same
/// observable behavior. All take the receiver by shared reference:
/// concurrent invocation from many callers is always legal, and internal
/// synchronization is the backend's responsibility.
pub trait Cashier {
    /// Insert or replace the entry for `key` with payload `value` and no
    /// deadline; any prior deadline on `key` is cleared.
    fn set(&self, key: &str, value: &str) -> Result<(), CacheError>;

    /// Insert or replace the entry for `key` with payload `value`, expiring
    /// `ttl` seconds from now. A `ttl` of zero is legal: the entry is
    /// eligible for expiry on the very next read.
    fn set_with_ttl(&self, key: &str, value: &str, ttl: u64) -> Result<(), CacheError>;

    /// Read `key`: the payload if a live entry is present, `None` if the key
    /// was never set, was deleted, was cleared, or has expired.
    fn get(&self, key: &str) -> Result<Option<String>, CacheError>;

    /// Remove the entry for `key`; a no-op, not an error, when absent.
    fn delete(&self, key: &str) -> Result<(), CacheError>;

    /// Remove every entry.
    fn clear(&self) -> Result<(), CacheError>;
}

} // verus!
