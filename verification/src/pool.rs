//! The memory-budget interface the adapter consumes: a pool identity, a
//! readiness-query handle and an attach-capable reference, all derived from
//! one identity. Readiness stands for remaining budget; the budget itself is
//! owned by the external allocator.

use vstd::prelude::*;

verus! {

/// Identity of one memory pool; one pool per listener-factory invocation.
#[derive(Clone, Copy, PartialEq, Eq, Structural, Debug)]
pub struct PoolId {
    pub id: u32,
}

/// Readiness-query handle for one pool. `ready` models whether the pool's
/// budget admits another connection right now.
#[derive(Clone, Copy, PartialEq, Eq, Structural, Debug)]
pub struct Pool {
    pub id: u32,
    pub ready: bool,
}

/// Attach-capable reference to the same pool: streams attached through it
/// charge their allocation against that pool's budget.
#[derive(Clone, Copy, PartialEq, Eq, Structural, Debug)]
pub struct PoolRef {
    pub id: u32,
}

impl PoolId {
    /// The readiness-query handle for this identity; a fresh pool has its
    /// whole budget left, so it starts ready.
    pub fn pool(&self) -> (r: Pool)
        ensures
            r == (Pool { id: self.id, ready: true }),
    {
        Pool { id: self.id, ready: true }
    }

    /// The attach-capable reference for this identity.
    pub fn pool_ref(&self) -> (r: PoolRef)
        ensures
            r == (PoolRef { id: self.id }),
    {
        PoolRef { id: self.id }
    }
}

impl Pool {
    /// Non-blocking readiness query; safe to call repeatedly.
    pub fn poll_ready(&self) -> (r: bool)
        ensures
            r == self.ready,
    {
        self.ready
    }

    /// The external allocator consuming the budget or freeing it again.
    pub fn set_ready(&mut self, ready: bool)
        ensures
            final(self).ready == ready,
            final(self).id == old(self).id,
    {
        self.ready = ready;
    }
}

} // verus!
