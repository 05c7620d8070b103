//! The shutdown coordination protocol: one logical firing per run, observed
//! by every task. Three triggers race to fire it (completion, external
//! interrupt, timeout); whichever fires first wins and the others become
//! no-ops. `ShutdownSignal` models the one-shot semantics of the broadcast
//! signal that every task of a run subscribes to before any of them starts.

use vstd::prelude::*;
use crate::types::sat_diff;

verus! {

/// The absolute deadline for the whole handshake, in milliseconds from the
/// run's start: the timeout trigger fires the shutdown signal when it
/// expires first.
pub const TIMEOUT_MILLISEC: u64 = 1000;

/// The state of the one-shot shutdown signal, as every task observes it.
pub struct ShutdownSignal {
    fired: bool,
}

impl ShutdownSignal {
    /// Whether the signal has been fired.
    pub closed spec fn fired(&self) -> bool {
        self.fired
    }

    pub fn new() -> (s: ShutdownSignal)
        ensures
            !s.fired(),
    {
        ShutdownSignal { fired: false }
    }

    /// Fire the signal. Returns whether this firing was the first one: a
    /// later firing is a no-op, never a failure.
    pub fn fire(&mut self) -> (first: bool)
        ensures
            final(self).fired(),
            first == !old(self).fired(),
    {
        let first = !self.fired;
        self.fired = true;
        first
    }

    pub fn is_fired(&self) -> (b: bool)
        ensures
            b == self.fired(),
    {
        self.fired
    }
}

/// Idempotence law: firing the signal twice leaves it in the very state one
/// firing does, at most the first of the two firings reports itself as
/// first, and the second never does — so no trigger losing the race can make
/// a task fail or tear down twice.
pub fn fire_twice(s: &mut ShutdownSignal) -> (r: (bool, bool))
    ensures
        final(s).fired(),
        r.0 == !old(s).fired(),
        r.1 == false,
{
    let first = s.fire();
    let second = s.fire();
    (first, second)
}

/// Timeout law: a report made once the deadline elapsed shows a total of at
/// least the deadline, replies or none.
pub proof fn lemma_timeout_total(start: u64, now: u64)
    requires
        start + TIMEOUT_MILLISEC <= now,
    ensures
        sat_diff(start, now) >= TIMEOUT_MILLISEC,
{
}

} // verus!
