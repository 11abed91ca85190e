//! Connection accounting: a worker-local in-flight connection counter and
//! the ownership token that stands for one counted connection.

use vstd::prelude::*;

verus! {

/// Worker-local count of in-flight connections. The external dispatch layer
/// acquires one guard per accepted connection before it builds a `Connect`
/// message; the admission adapter returns the guard once the handler's
/// processing of that connection has completed.
pub struct ConnCounter {
    pub count: u64,
}

/// One in-flight connection is counted. The token is neither copyable nor
/// clonable, so it can be released at most once; releasing it decrements the
/// counter it was acquired from.
pub struct CounterGuard {
    _private: (),
}

impl ConnCounter {
    pub fn new() -> (r: ConnCounter)
        ensures
            r.count == 0,
    {
        ConnCounter { count: 0 }
    }

    /// Count one more in-flight connection and hand out its guard.
    pub fn get(&mut self) -> (g: CounterGuard)
        requires
            old(self).count < u64::MAX,
        ensures
            final(self).count == old(self).count + 1,
    {
        self.count = self.count + 1;
        CounterGuard { _private: () }
    }

    /// Return a guard: the connection it counted is no longer in flight.
    /// Consumes the guard, so each guard is released at most once.
    pub fn release(&mut self, _guard: CounterGuard)
        requires
            old(self).count >= 1,
        ensures
            final(self).count == old(self).count - 1,
    {
        self.count = self.count - 1;
    }
}

} // verus!
