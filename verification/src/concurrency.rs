//! The bounded-concurrency controller: a counting limiter that never
//! admits more simultaneously active transfers than its configured limit.

use vstd::prelude::*;

verus! {

/// Default cap on simultaneously active transfers.
pub const DEFAULT_MAX_CONCURRENT_DOWNLOADS: usize = 5;

/// Counts active transfers against a fixed limit. A slot must be acquired
/// before a task's resolve-and-download sequence begins, and released
/// unconditionally when the task completes.
pub struct ConcurrencyController {
    limit: usize,
    active: usize,
}

impl ConcurrencyController {
    /// The configured limit.
    pub closed spec fn limit(self) -> int {
        self.limit as int
    }

    /// The number of currently held slots.
    pub closed spec fn active(self) -> int {
        self.active as int
    }

    /// The controller never hands out more slots than its limit.
    pub open spec fn inv(self) -> bool {
        0 <= self.active() <= self.limit() && self.limit() >= 1
    }

    /// A controller with the given limit and no active transfers.
    pub fn new(limit: usize) -> (c: ConcurrencyController)
        requires
            limit >= 1,
        ensures
            c.inv(),
            c.limit() == limit,
            c.active() == 0,
    {
        ConcurrencyController { limit, active: 0 }
    }

    /// Grants a slot exactly when one is free; the count never passes the
    /// limit.
    pub fn try_acquire(&mut self) -> (granted: bool)
        requires
            old(self).inv(),
        ensures
            final(self).inv(),
            final(self).limit() == old(self).limit(),
            granted == (old(self).active() < old(self).limit()),
            granted ==> final(self).active() == old(self).active() + 1,
            !granted ==> final(self).active() == old(self).active(),
    {
        if self.active < self.limit {
            self.active = self.active + 1;
            true
        } else {
            false
        }
    }

    /// Returns a held slot. Release must happen on every exit path of a
    /// task, so a slot can never leak.
    pub fn release(&mut self)
        requires
            old(self).inv(),
            old(self).active() >= 1,
        ensures
            final(self).inv(),
            final(self).limit() == old(self).limit(),
            final(self).active() == old(self).active() - 1,
    {
        self.active = self.active - 1;
    }

    /// The number of currently held slots.
    pub fn active_count(&self) -> (n: usize)
        ensures
            n == self.active(),
    {
        self.active
    }

    /// The configured limit.
    pub fn limit_value(&self) -> (n: usize)
        ensures
            n == self.limit(),
    {
        self.limit
    }
}

/// Law: in every reachable state the number of active transfers is at most
/// the configured limit.
pub proof fn lemma_never_exceeds_limit(c: ConcurrencyController)
    requires
        c.inv(),
    ensures
        c.active() <= c.limit(),
{
}

} // verus!
