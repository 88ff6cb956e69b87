//! Priority-ceiling locking for resources shared across priority levels.
//!
//! Button state, the reader handle and the status LED are touched from
//! interrupt-bound tasks, periodic tasks and the idle loop.  Each such
//! resource carries a ceiling: the highest configured priority among the
//! tasks declared to touch it.  While a task is inside a critical
//! section over the resource it executes at the ceiling if that is above
//! its own priority, so no contender for the same resource can preempt
//! it mid-section — which rules out both data races on the shared state
//! and unbounded priority inversion, without heap allocation or dynamic
//! locks.  No resource is held across a task boundary.

use vstd::prelude::*;

verus! {

/// The ceiling handle of one shared resource, issued at construction to
/// the tasks declared to need that resource.
#[derive(Debug, Clone, Copy, PartialEq, Eq, Structural)]
pub struct CeilingLock {
    pub ceiling: u8,
}

/// The priority at which a task of priority `base` executes while inside
/// a critical section over a resource with ceiling `ceiling`.
pub open spec fn spec_effective_priority(base: u8, ceiling: u8) -> u8 {
    if base >= ceiling {
        base
    } else {
        ceiling
    }
}

impl CeilingLock {
    /// Whether this ceiling dominates every priority in `priorities` —
    /// what a correctly built ceiling guarantees for the priorities of
    /// the tasks that touch its resource.
    pub open spec fn covers(self, priorities: Seq<u8>) -> bool {
        forall|i: int| 0 <= i < priorities.len() ==> priorities[i] <= self.ceiling
    }

    /// The ceiling for a resource touched by tasks of the given
    /// priorities: their maximum.
    pub fn new(priorities: &Vec<u8>) -> (r: CeilingLock)
        ensures
            r.covers(priorities@),
            priorities@.len() == 0 ==> r.ceiling == 0,
            priorities@.len() > 0 ==> exists|i: int|
                0 <= i < priorities@.len() && priorities@[i] == r.ceiling,
    {
        let n = priorities.len();
        let mut ceiling: u8 = 0;
        let mut k: usize = 0;
        while k < n
            invariant
                n == priorities@.len(),
                k <= n,
                forall|i: int| 0 <= i < k ==> priorities@[i] <= ceiling,
                k == 0 ==> ceiling == 0,
                k > 0 ==> exists|i: int| 0 <= i < k && priorities@[i] == ceiling,
            decreases n - k,
        {
            if priorities[k] > ceiling {
                ceiling = priorities[k];
            }
            k += 1;
        }
        CeilingLock { ceiling }
    }

    /// The priority at which a holder of this resource's critical
    /// section executes.
    pub fn effective_priority(&self, base: u8) -> (r: u8)
        ensures
            r == spec_effective_priority(base, self.ceiling),
    {
        if base >= self.ceiling {
            base
        } else {
            self.ceiling
        }
    }
}

/// Ceiling locking blocks contention: while any task holds a resource
/// whose ceiling covers its contenders, every contender's priority stays
/// at or below the holder's effective priority, so a preemption by a
/// task that could touch the same resource is impossible mid-section.
pub proof fn lemma_ceiling_blocks_contenders(
    lock: CeilingLock,
    priorities: Seq<u8>,
    holder: u8,
    j: int,
)
    requires
        lock.covers(priorities),
        0 <= j < priorities.len(),
    ensures
        priorities[j] <= spec_effective_priority(holder, lock.ceiling),
{
}

} // verus!
