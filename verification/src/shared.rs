//! Shared state crossing the module boundary: a bounded history of integer
//! samples together with an injected randomness capability, so that the
//! sample-update logic is deterministic under test.

use vstd::prelude::*;

verus! {

/// A randomness capability. The driver injects a real random source; tests
/// inject a deterministic one. Every implementation must return a value in
/// the closed-open range `[low, high)`.
pub trait Rng {
    fn gen_range(&mut self, low: i32, high: i32) -> (r: i32)
        requires
            low < high,
        ensures
            low <= r < high,
    ;
}

/// The process-wide state handed to whichever module is currently loaded:
/// a history of samples and the randomness capability.
pub struct State<R: Rng> {
    pub rng: R,
    pub items: Vec<i32>,
}

impl<R: Rng> State<R> {
    pub fn new(rng: R) -> (s: State<R>)
        ensures
            s.items@ == Seq::<i32>::empty(),
            s.rng == rng,
    {
        State { rng, items: Vec::new() }
    }
}

/// A deterministic randomness capability: always yields `value`, clamped
/// into the requested range.
pub struct FixedRng {
    pub value: i32,
}

impl Rng for FixedRng {
    fn gen_range(&mut self, low: i32, high: i32) -> (r: i32)
        ensures
            r as int == if old(self).value < low {
                low as int
            } else if old(self).value >= high {
                high - 1
            } else {
                old(self).value as int
            },
            *final(self) == *old(self),
    {
        if self.value < low {
            low
        } else if self.value >= high {
            high - 1
        } else {
            self.value
        }
    }
}

} // verus!
