//! The Lamport clock that stamps sync ids: a 64-bit counter kept ahead of the
//! wall clock and advanced by compare-and-swap.
use vstd::prelude::*;

use std::sync::atomic::{AtomicU64, Ordering};

verus! {

/// The stamp that follows a counter value `observed` when the wall clock
/// reads `wall_clock_ms`: one past the larger of the two, saturating.
pub open spec fn lamport_advance(observed: u64, wall_clock_ms: u64) -> u64 {
    let m = if observed >= wall_clock_ms {
        observed
    } else {
        wall_clock_ms
    };
    if m == u64::MAX {
        m
    } else {
        (m + 1) as u64
    }
}

/// Computes [`lamport_advance`].
pub fn next_candidate(observed: u64, wall_clock_ms: u64) -> (r: u64)
    ensures
        r == lamport_advance(observed, wall_clock_ms),
        r >= 1,
        r > observed || observed == u64::MAX,
        r > wall_clock_ms || wall_clock_ms == u64::MAX,
{
    let m = if observed >= wall_clock_ms {
        observed
    } else {
        wall_clock_ms
    };
    m.saturating_add(1)
}

/// A stamp issued after `first` is greater than it: the counter holds at
/// least every stamp it has published, and each new stamp is one past the
/// counter value it was computed from. Only the saturated counter repeats.
pub proof fn lemma_stamps_increase(first: u64, observed: u64, wall_clock_ms: u64)
    requires
        first <= observed,
        first < u64::MAX,
    ensures
        lamport_advance(observed, wall_clock_ms) > first,
{
}

/// A Lamport counter that threads share. Every stamp is published by a
/// sequentially consistent compare-and-swap, so the stamps that succeed form
/// one strictly increasing order seen alike by every thread.
pub struct LamportClock {
    /// The last stamp published; zero before the first.
    pub counter: AtomicU64,
}

impl LamportClock {
    pub fn new() -> (r: Self) {
        LamportClock { counter: AtomicU64::new(0) }
    }

    /// One attempt to publish the stamp that follows the counter: `None` when
    /// another thread published in between, and the caller tries again.
    pub fn try_advance(&self, wall_clock_ms: u64) -> (r: Option<u64>)
        ensures
            r matches Some(t) ==> exists|observed: u64| t == lamport_advance(observed, wall_clock_ms),
            r matches Some(t) ==> t >= 1 && (t > wall_clock_ms || wall_clock_ms == u64::MAX),
    {
        let observed = self.counter.load(Ordering::Relaxed);
        let candidate = next_candidate(observed, wall_clock_ms);
        match self.counter.compare_exchange(observed, candidate, Ordering::SeqCst, Ordering::SeqCst) {
            Ok(_) => Some(candidate),
            Err(_) => None,
        }
    }
}

} // verus!
