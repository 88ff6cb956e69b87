//! Wraparound-safe deadline arithmetic on the 32-bit free-running cycle
//! counter.
//!
//! All deadlines are computed as "reading now, plus a relative duration"
//! and compared against later readings.  The counter wraps at its period,
//! so readings are compared by wrapped distance: a deadline counts as
//! reached when it lies no more than half the period in the past.  The
//! lemmas at the bottom show that, as long as a deadline is set less than
//! half a period ahead, this wrapped comparison agrees exactly with true
//! elapsed time — a task is never seen as due before its deadline, and
//! always seen as due once the deadline has passed (within half a
//! period).

use vstd::prelude::*;

verus! {

/// Cycles of the 64 MHz system clock in one 10 ms debounce tick.
pub const CYCLES_10_MS: u32 = 64_000_000 / 100;

/// Half the counter period: the horizon within which wrapped comparison
/// is faithful.
pub const HALF_PERIOD: u32 = 0x8000_0000;

/// The counter reading `d` cycles after reading `t`, wrapping at the
/// period.
pub open spec fn spec_wrap_add(t: u32, d: u32) -> u32 {
    if t + d > u32::MAX {
        (t + d - 0x1_0000_0000) as u32
    } else {
        (t + d) as u32
    }
}

/// The wrapped distance from reading `deadline` back to reading `now`:
/// how many cycles ago the deadline reading was, modulo the period.
pub open spec fn spec_elapsed(now: u32, deadline: u32) -> u32 {
    if now >= deadline {
        (now - deadline) as u32
    } else {
        (now - deadline + 0x1_0000_0000) as u32
    }
}

/// Whether the reading `now` counts `deadline` as reached.
pub open spec fn spec_due(now: u32, deadline: u32) -> bool {
    spec_elapsed(now, deadline) < HALF_PERIOD
}

/// The counter reading `d` cycles after reading `t`.
pub fn wrap_add(t: u32, d: u32) -> (r: u32)
    ensures
        r == spec_wrap_add(t, d),
{
    t.wrapping_add(d)
}

/// Whether the reading `now` counts `deadline` as reached.
pub fn is_due(now: u32, deadline: u32) -> (r: bool)
    ensures
        r == spec_due(now, deadline),
{
    now.wrapping_sub(deadline) < HALF_PERIOD
}

/// A deadline set `d` cycles ahead (less than half a period) is not yet
/// due at any reading strictly before it.
pub proof fn lemma_not_due_before(t: u32, d: u32, e: u32)
    requires
        e < d,
        d < HALF_PERIOD,
    ensures
        !spec_due(spec_wrap_add(t, e), spec_wrap_add(t, d)),
{
}

/// A deadline set `d` cycles ahead is due at the deadline itself and at
/// every later reading within half a period of it.
pub proof fn lemma_due_from_deadline(t: u32, d: u32, e: u32)
    requires
        d <= e,
        e - d < HALF_PERIOD,
    ensures
        spec_due(spec_wrap_add(t, e), spec_wrap_add(t, d)),
{
}

} // verus!
