//! Priority scheduler for self-rescheduling tasks.
//!
//! The task set is fixed at construction: an arena of slots, one per task
//! identity, each holding the task's configured priority and, while an
//! invocation is pending, its absolute deadline in ticks of the monotonic
//! counter.  A task never fires before its deadline; among tasks due at
//! the same instant the numerically higher priority fires first, ties are
//! broken towards the earlier deadline and then the lower slot index; and
//! a task's single pending-invocation slot refuses a second request while
//! one is pending — a capacity-planning fault, so the refusal is
//! reported to the caller instead of being absorbed.

use vstd::prelude::*;

verus! {

/// One arena slot: a task's fixed priority and, when an invocation is
/// pending, the tick at which it becomes due.
#[derive(Debug, Clone, Copy, PartialEq, Eq, Structural)]
pub struct TaskSlot {
    pub priority: u8,
    pub deadline: Option<u64>,
}

/// Whether slot `i` holds an invocation that is due at tick `now`:
/// pending, with its deadline reached.  A task is never due before its
/// requested deadline.
pub open spec fn task_due(slots: Seq<TaskSlot>, i: int, now: u64) -> bool {
    &&& 0 <= i < slots.len()
    &&& slots[i].deadline matches Some(d) && d <= now
}

/// Dispatch order among two due slots: higher priority first, then the
/// earlier deadline, then the lower slot index.
pub open spec fn beats(slots: Seq<TaskSlot>, i: int, j: int) -> bool {
    ||| slots[i].priority > slots[j].priority
    ||| (slots[i].priority == slots[j].priority && slots[i].deadline->Some_0
        < slots[j].deadline->Some_0)
    ||| (slots[i].priority == slots[j].priority && slots[i].deadline->Some_0
        == slots[j].deadline->Some_0 && i < j)
}

/// The slot that dispatch picks among the first `n` slots: the due slot
/// that beats every other due one, or nothing when none is due.
pub open spec fn pick_in_prefix(slots: Seq<TaskSlot>, now: u64, n: int) -> Option<int>
    decreases n,
{
    if n <= 0 {
        None
    } else {
        let rest = pick_in_prefix(slots, now, n - 1);
        if !task_due(slots, n - 1, now) {
            rest
        } else {
            match rest {
                None => Some(n - 1),
                Some(b) => if beats(slots, n - 1, b) {
                    Some(n - 1)
                } else {
                    Some(b)
                },
            }
        }
    }
}

/// The slot that dispatch picks at tick `now`.
pub open spec fn spec_pick(slots: Seq<TaskSlot>, now: u64) -> Option<int> {
    pick_in_prefix(slots, now, slots.len() as int)
}

/// What `spec_pick` promises: the picked slot is due and beats every
/// other due slot; and nothing is picked only when nothing is due.
pub proof fn lemma_pick_props(slots: Seq<TaskSlot>, now: u64, n: int)
    requires
        0 <= n <= slots.len(),
    ensures
        match pick_in_prefix(slots, now, n) {
            Some(b) => 0 <= b < n && task_due(slots, b, now) && forall|j: int|
                0 <= j < n && task_due(slots, j, now) && j != b ==> beats(slots, b, j),
            None => forall|j: int| 0 <= j < n ==> !task_due(slots, j, now),
        },
    decreases n,
{
    if n > 0 {
        lemma_pick_props(slots, now, n - 1);
    }
}

/// The scheduler: the arena of task slots.
pub struct Scheduler {
    pub slots: Vec<TaskSlot>,
}

impl Scheduler {
    /// An arena with one slot per entry of `priorities`, none pending.
    pub fn new(priorities: &Vec<u8>) -> (r: Scheduler)
        ensures
            r.slots@.len() == priorities@.len(),
            forall|i: int|
                0 <= i < priorities@.len() ==> r.slots@[i] == (TaskSlot {
                    priority: priorities@[i],
                    deadline: None,
                }),
    {
        let n = priorities.len();
        let mut slots: Vec<TaskSlot> = Vec::new();
        let mut k: usize = 0;
        while k < n
            invariant
                n == priorities@.len(),
                k <= n,
                slots@.len() == k,
                forall|i: int|
                    0 <= i < k ==> slots@[i] == (TaskSlot {
                        priority: priorities@[i],
                        deadline: None,
                    }),
            decreases n - k,
        {
            slots.push(TaskSlot { priority: priorities[k], deadline: None });
            k += 1;
        }
        Scheduler { slots }
    }

    /// How many task identities the arena holds.
    pub fn task_count(&self) -> (r: usize)
        ensures
            r == self.slots@.len(),
    {
        self.slots.len()
    }

    /// Request an invocation of `task` at absolute tick `deadline`.
    /// Refused — and nothing changes — exactly when the task's pending
    /// slot is already occupied: a capacity fault on which the caller
    /// must decide (the device halts on it).
    pub fn schedule(&mut self, task: usize, deadline: u64) -> (accepted: bool)
        requires
            task < old(self).slots@.len(),
        ensures
            accepted == (old(self).slots@[task as int].deadline is None),
            accepted ==> final(self).slots@ == old(self).slots@.update(
                task as int,
                TaskSlot { priority: old(self).slots@[task as int].priority, deadline: Some(deadline) },
            ),
            !accepted ==> *final(self) == *old(self),
    {
        let slot = self.slots[task];
        match slot.deadline {
            Some(_) => false,
            None => {
                self.slots[task] = TaskSlot { priority: slot.priority, deadline: Some(deadline) };
                true
            },
        }
    }

    /// Remove and return the slot index that dispatch runs next at tick
    /// `now`: a due slot that beats every other due slot, its pending
    /// invocation consumed; or nothing, exactly when no task is due.
    pub fn pop_due(&mut self, now: u64) -> (r: Option<usize>)
        ensures
            match r {
                Some(i) => {
                    &&& Some(i as int) == spec_pick(old(self).slots@, now)
                    &&& task_due(old(self).slots@, i as int, now)
                    &&& forall|j: int|
                        0 <= j < old(self).slots@.len() && task_due(old(self).slots@, j, now) && j
                            != i ==> beats(old(self).slots@, i as int, j)
                    &&& final(self).slots@ == old(self).slots@.update(
                        i as int,
                        TaskSlot { priority: old(self).slots@[i as int].priority, deadline: None },
                    )
                },
                None => {
                    &&& spec_pick(old(self).slots@, now) is None
                    &&& forall|j: int|
                        0 <= j < old(self).slots@.len() ==> !task_due(old(self).slots@, j, now)
                    &&& *final(self) == *old(self)
                },
            },
    {
        let ghost s = self.slots@;
        let n = self.slots.len();
        let mut best: Option<(usize, u64)> = None;
        let mut k: usize = 0;
        while k < n
            invariant
                n == s.len(),
                self.slots@ == s,
                k <= n,
                match best {
                    Some((b, bd)) => b < k && s[b as int].deadline == Some(bd) && pick_in_prefix(
                        s,
                        now,
                        k as int,
                    ) == Some(b as int),
                    None => pick_in_prefix(s, now, k as int) is None,
                },
            decreases n - k,
        {
            let slot = self.slots[k];
            if let Some(d) = slot.deadline {
                if d <= now {
                    best = match best {
                        None => Some((k, d)),
                        Some((b, bd)) => {
                            let bp = self.slots[b].priority;
                            if slot.priority > bp || (slot.priority == bp && d < bd) {
                                Some((k, d))
                            } else {
                                Some((b, bd))
                            }
                        },
                    };
                }
            }
            k += 1;
        }
        proof {
            lemma_pick_props(s, now, s.len() as int);
        }
        match best {
            None => None,
            Some((b, _)) => {
                let priority = self.slots[b].priority;
                self.slots[b] = TaskSlot { priority, deadline: None };
                Some(b)
            },
        }
    }
}

/// Scheduler priority ordering: when two tasks are due at the same tick,
/// dispatch never picks the lower-priority one — what it picks has at
/// least the higher task's priority.
pub proof fn lemma_priority_ordering(slots: Seq<TaskSlot>, now: u64, hi: int, lo: int)
    requires
        task_due(slots, hi, now),
        task_due(slots, lo, now),
        slots[hi].priority > slots[lo].priority,
    ensures
        spec_pick(slots, now) is Some,
        spec_pick(slots, now) != Some(lo),
        slots[spec_pick(slots, now)->Some_0].priority >= slots[hi].priority,
{
    lemma_pick_props(slots, now, slots.len() as int);
}

} // verus!
