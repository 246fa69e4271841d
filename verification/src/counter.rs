//! The shared request counter: one unsigned 64-bit value, created at zero and
//! only ever incremented by one. The process-wide sharing (one cell reachable
//! from every in-flight request) is the embedding program's concern; this
//! module fixes what a read and an increment mean.

use vstd::prelude::*;

verus! {

/// A monotonically non-decreasing request counter.
#[derive(Debug)]
pub struct Counter {
    pub count: u64,
}

impl Counter {
    /// A fresh counter starts at zero.
    pub fn new() -> (r: Counter)
        ensures
            r.count == 0,
    {
        Counter { count: 0 }
    }

    /// Point-in-time read; never mutates.
    pub fn read(&self) -> (r: u64)
        ensures
            r == self.count,
    {
        self.count
    }

    /// Adds exactly one and returns the new value.
    pub fn increment(&mut self) -> (r: u64)
        requires
            old(self).count < u64::MAX,
        ensures
            final(self).count == old(self).count + 1,
            r == final(self).count,
    {
        self.count = self.count + 1;
        self.count
    }
}

} // verus!
