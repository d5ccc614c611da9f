//! The count of database row locks in flight, and the lock wait it implies.
use vstd::prelude::*;
use std::sync::atomic::{AtomicBool, AtomicI64, Ordering};

verus! {

/// How many `FOR UPDATE` operations are in flight, and whether the count is
/// being kept. Shared between tasks, so every read may see other tasks'
/// changes.
pub struct LockCounter {
    count: AtomicI64,
    active: AtomicBool,
}

impl LockCounter {
    /// A counter at zero, not active. The two values live in std atomics,
    /// whose contents no contract here speaks of: every later read may see
    /// what other tasks stored.
    pub fn new() -> (r: LockCounter) {
        LockCounter { count: AtomicI64::new(0), active: AtomicBool::new(false) }
    }

    /// One more lock in flight.
    pub fn increment(&self) {
        self.count.fetch_add(1, Ordering::Release);
    }

    /// One lock fewer in flight.
    pub fn decrement(&self) {
        self.count.fetch_sub(1, Ordering::Release);
    }

    /// Starts or stops keeping the count.
    pub fn set_active(&self, v: bool) {
        self.active.store(v, Ordering::Release);
    }

    /// The count as last seen; it depends on what every task sharing the
    /// counter did before, so no contract fixes it.
    pub fn load_count(&self) -> i64 {
        self.count.load(Ordering::Acquire)
    }

    /// Whether the count is kept, as last seen; like the count, it depends on
    /// what other tasks stored.
    pub fn is_active(&self) -> bool {
        self.active.load(Ordering::Acquire)
    }
}

impl Default for LockCounter {
    /// A counter at zero, not active.
    fn default() -> (r: LockCounter) {
        LockCounter::new()
    }
}

/// The lock wait in seconds: 10 while the count is not kept, else 16 minus
/// the locks in flight, kept between 1 and 15.
pub open spec fn timeout_for(active: bool, count: int) -> int {
    if !active {
        10
    } else if 16 - count < 1 {
        1
    } else if 16 - count > 15 {
        15
    } else {
        16 - count
    }
}

/// The lock wait in seconds for a counter state.
pub fn lock_timeout_for(active: bool, count: i64) -> (r: i64)
    ensures
        r == timeout_for(active, count as int),
{
    if !active {
        10
    } else if count >= 15 {
        1
    } else if count <= 1 {
        15
    } else {
        16 - count
    }
}

/// The lock wait in seconds for the counter as it is read now; always
/// between 1 and 15.
pub fn lock_timeout(counter: &LockCounter) -> (r: i64)
    ensures
        1 <= r <= 15,
        exists|active: bool, count: i64| r == timeout_for(active, count as int),
{
    let active = counter.is_active();
    let count = counter.load_count();
    let r = lock_timeout_for(active, count);
    assert(r == timeout_for(active, count as int));
    r
}

} // verus!
