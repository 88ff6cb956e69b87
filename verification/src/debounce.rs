//! Per-button debounce and press-classification state machine.
//!
//! A falling edge on an armed (idle) button starts a sampling cycle; the
//! machine is then driven by one tick every sampling period (10 ms in the
//! default configuration).  Release before `threshold` sampled ticks
//! classifies the press as short; reaching `threshold` sampled ticks
//! classifies it as long at that tick, without waiting for release.  After
//! either classification the machine cools down until the pin reads
//! released, and only then re-arms: a press is never counted twice, and a
//! bounce cannot re-trigger a cycle.

use vstd::prelude::*;

verus! {

/// Default number of sampled ticks at which a press becomes long
/// (100 ticks of 10 ms each: one second).
pub const DEFAULT_LONG_PRESS_TICKS: u8 = 100;

/// The classification of one physical press.
#[derive(Debug, Clone, Copy, PartialEq, Eq, Structural)]
pub enum PressKind {
    Short,
    Long,
}

/// The debounce machine's state.
#[derive(Debug, Clone, Copy, PartialEq, Eq, Structural)]
pub enum DebounceState {
    /// Armed: a falling edge may start a sampling cycle.
    Idle,
    /// A press is being measured; the payload counts the ticks that have
    /// already sampled the pin as pressed.
    Sampling(u8),
    /// The press was classified; waiting for the pin to read released
    /// before re-arming.
    CoolingDown,
}

/// One button's debounce machine: its state plus the configured long-press
/// bound in sampled ticks.
#[derive(Debug, Clone, Copy, PartialEq, Eq, Structural)]
pub struct Debounce {
    pub state: DebounceState,
    pub threshold: u8,
}

/// The state after a tick that sampled the pin as `pressed`.
pub open spec fn spec_step(s: DebounceState, pressed: bool, threshold: u8) -> DebounceState {
    match s {
        DebounceState::Idle => DebounceState::Idle,
        DebounceState::Sampling(i) => {
            if i >= threshold {
                DebounceState::CoolingDown
            } else if pressed {
                DebounceState::Sampling((i + 1) as u8)
            } else {
                DebounceState::CoolingDown
            }
        },
        DebounceState::CoolingDown => {
            if pressed {
                DebounceState::CoolingDown
            } else {
                DebounceState::Idle
            }
        },
    }
}

/// The event, if any, emitted by a tick that sampled the pin as `pressed`.
pub open spec fn spec_emit(s: DebounceState, pressed: bool, threshold: u8) -> Option<PressKind> {
    match s {
        DebounceState::Sampling(i) => {
            if i >= threshold {
                Some(PressKind::Long)
            } else if pressed {
                None
            } else {
                Some(PressKind::Short)
            }
        },
        _ => None,
    }
}

/// The state after a falling edge: an idle machine arms and starts
/// sampling; a machine mid-cycle ignores the edge.
pub open spec fn spec_edge_state(s: DebounceState) -> DebounceState {
    if s is Idle {
        DebounceState::Sampling(0)
    } else {
        s
    }
}

/// The state after feeding every tick sample in `samples`, in order.
pub open spec fn spec_run_state(s: DebounceState, samples: Seq<bool>, threshold: u8) -> DebounceState
    decreases samples.len(),
{
    if samples.len() == 0 {
        s
    } else {
        spec_run_state(spec_step(s, samples[0], threshold), samples.drop_first(), threshold)
    }
}

/// The events emitted while feeding every tick sample in `samples`, in
/// order.
pub open spec fn spec_run_emits(s: DebounceState, samples: Seq<bool>, threshold: u8) -> Seq<
    PressKind,
>
    decreases samples.len(),
{
    if samples.len() == 0 {
        Seq::empty()
    } else {
        let rest = spec_run_emits(
            spec_step(s, samples[0], threshold),
            samples.drop_first(),
            threshold,
        );
        match spec_emit(s, samples[0], threshold) {
            Some(kind) => seq![kind] + rest,
            None => rest,
        }
    }
}

/// `n` ticks that sample the pin as pressed.
pub open spec fn pressed_for(n: nat) -> Seq<bool> {
    Seq::new(n, |k: int| true)
}

/// `n` ticks that sample the pin as released.
pub open spec fn released_for(n: nat) -> Seq<bool> {
    Seq::new(n, |k: int| false)
}

impl Debounce {
    /// The iteration counter never runs past the configured bound.
    pub open spec fn wf(self) -> bool {
        &&& self.threshold >= 1
        &&& (self.state matches DebounceState::Sampling(i) ==> i <= self.threshold)
    }

    /// A machine with the given long-press bound, armed and idle.
    pub fn new(threshold: u8) -> (r: Debounce)
        requires
            threshold >= 1,
        ensures
            r.wf(),
            r.state is Idle,
            r.threshold == threshold,
    {
        Debounce { state: DebounceState::Idle, threshold }
    }

    /// A machine with the default one-second long-press bound.
    pub fn new_default() -> (r: Debounce)
        ensures
            r.wf(),
            r.state is Idle,
            r.threshold == DEFAULT_LONG_PRESS_TICKS,
    {
        Debounce::new(DEFAULT_LONG_PRESS_TICKS)
    }

    /// Whether a falling edge would currently start a press cycle.
    pub fn is_enabled(&self) -> (r: bool)
        ensures
            r == (self.state is Idle),
    {
        match self.state {
            DebounceState::Idle => true,
            _ => false,
        }
    }

    /// Whether the machine still wants periodic ticks; once it is idle
    /// again, only a new edge wakes it.
    pub fn needs_tick(&self) -> (r: bool)
        ensures
            r == !(self.state is Idle),
    {
        match self.state {
            DebounceState::Idle => false,
            _ => true,
        }
    }

    /// React to a falling edge on the button pin.  Returns whether the
    /// edge armed a new sampling cycle (and a first tick must be
    /// scheduled); an edge mid-cycle changes nothing.
    pub fn on_falling_edge(&mut self) -> (armed: bool)
        requires
            old(self).wf(),
        ensures
            final(self).wf(),
            final(self).threshold == old(self).threshold,
            final(self).state == spec_edge_state(old(self).state),
            armed == (old(self).state is Idle),
    {
        match self.state {
            DebounceState::Idle => {
                self.state = DebounceState::Sampling(0);
                true
            },
            _ => false,
        }
    }

    /// React to one periodic tick, given the pin's current sample.
    /// Returns the press classification when this tick decides one.
    pub fn on_tick(&mut self, pressed: bool) -> (emitted: Option<PressKind>)
        requires
            old(self).wf(),
        ensures
            final(self).wf(),
            final(self).threshold == old(self).threshold,
            final(self).state == spec_step(old(self).state, pressed, old(self).threshold),
            emitted == spec_emit(old(self).state, pressed, old(self).threshold),
    {
        match self.state {
            DebounceState::Idle => None,
            DebounceState::Sampling(i) => {
                if i >= self.threshold {
                    self.state = DebounceState::CoolingDown;
                    Some(PressKind::Long)
                } else if pressed {
                    self.state = DebounceState::Sampling(i + 1);
                    None
                } else {
                    self.state = DebounceState::CoolingDown;
                    Some(PressKind::Short)
                }
            },
            DebounceState::CoolingDown => {
                if !pressed {
                    self.state = DebounceState::Idle;
                }
                None
            },
        }
    }
}

/// Running a run over `s1 + s2` is running over `s1`, then over `s2` from
/// the state `s1` left behind; the emitted events concatenate.
proof fn lemma_run_append(s: DebounceState, s1: Seq<bool>, s2: Seq<bool>, threshold: u8)
    ensures
        spec_run_state(s, s1 + s2, threshold) == spec_run_state(
            spec_run_state(s, s1, threshold),
            s2,
            threshold,
        ),
        spec_run_emits(s, s1 + s2, threshold) == spec_run_emits(s, s1, threshold)
            + spec_run_emits(spec_run_state(s, s1, threshold), s2, threshold),
    decreases s1.len(),
{
    if s1.len() == 0 {
        assert(s1 + s2 =~= s2);
        assert(spec_run_emits(s, s1, threshold) + spec_run_emits(s, s2, threshold) =~= spec_run_emits(
            s,
            s2,
            threshold,
        ));
    } else {
        let stepped = spec_step(s, s1[0], threshold);
        assert((s1 + s2).drop_first() =~= s1.drop_first() + s2);
        lemma_run_append(stepped, s1.drop_first(), s2, threshold);
        assert(spec_run_emits(s, s1 + s2, threshold) =~= spec_run_emits(s, s1, threshold)
            + spec_run_emits(spec_run_state(s, s1, threshold), s2, threshold));
    }
}

/// A machine that has classified its press (or is idle) emits nothing
/// more, whatever the pin does, until a new edge arms it.
proof fn lemma_settled_emits_nothing(s: DebounceState, samples: Seq<bool>, threshold: u8)
    requires
        s is Idle || s is CoolingDown,
    ensures
        spec_run_emits(s, samples, threshold) == Seq::<PressKind>::empty(),
        spec_run_state(s, samples, threshold) is Idle || spec_run_state(
            s,
            samples,
            threshold,
        ) is CoolingDown,
    decreases samples.len(),
{
    if samples.len() > 0 {
        lemma_settled_emits_nothing(
            spec_step(s, samples[0], threshold),
            samples.drop_first(),
            threshold,
        );
    }
}

/// While the pin stays pressed and the bound is not yet reached, sampling
/// only advances the counter and emits nothing.
proof fn lemma_sampling_advances(i: u8, d: nat, threshold: u8)
    requires
        i + d <= threshold,
    ensures
        spec_run_state(DebounceState::Sampling(i), pressed_for(d), threshold)
            == DebounceState::Sampling((i + d) as u8),
        spec_run_emits(DebounceState::Sampling(i), pressed_for(d), threshold) == Seq::<
            PressKind,
        >::empty(),
    decreases d,
{
    if d > 0 {
        assert(pressed_for(d)[0]);
        assert(pressed_for(d).drop_first() =~= pressed_for((d - 1) as nat));
        lemma_sampling_advances((i + 1) as u8, (d - 1) as nat, threshold);
    }
}

/// Once the counter has reached the bound, the very next tick emits the
/// long-press event, whatever the pin reads then or later.
proof fn lemma_saturated_emits_long(samples: Seq<bool>, threshold: u8)
    requires
        samples.len() >= 1,
    ensures
        spec_run_emits(DebounceState::Sampling(threshold), samples, threshold) == seq![
            PressKind::Long,
        ],
{
    let s = DebounceState::Sampling(threshold);
    lemma_settled_emits_nothing(
        spec_step(s, samples[0], threshold),
        samples.drop_first(),
        threshold,
    );
    assert(spec_run_emits(s, samples, threshold) =~= seq![PressKind::Long]);
}

/// A release observed before the counter reaches the bound emits the
/// short-press event on that tick and nothing afterwards.
proof fn lemma_release_emits_short(i: u8, c: nat, threshold: u8)
    requires
        i < threshold,
        c >= 1,
    ensures
        spec_run_emits(DebounceState::Sampling(i), released_for(c), threshold) == seq![
            PressKind::Short,
        ],
{
    let s = DebounceState::Sampling(i);
    let samples = released_for(c);
    assert(!samples[0]);
    lemma_settled_emits_nothing(
        spec_step(s, samples[0], threshold),
        samples.drop_first(),
        threshold,
    );
    assert(spec_run_emits(s, samples, threshold) =~= seq![PressKind::Short]);
}

/// Debounce idempotence: a physical press that holds the pin for `held`
/// ticks and then releases it produces exactly one classified event —
/// short if the hold stayed under the bound, long otherwise — never zero
/// events and never two.
pub proof fn lemma_one_event_per_press(held: nat, released: nat, threshold: u8)
    requires
        threshold >= 1,
        released >= 1,
    ensures
        ({
            let emits = spec_run_emits(
                DebounceState::Sampling(0),
                pressed_for(held) + released_for(released),
                threshold,
            );
            &&& emits.len() == 1
            &&& emits == if held < threshold {
                seq![PressKind::Short]
            } else {
                seq![PressKind::Long]
            }
        }),
{
    let start = DebounceState::Sampling(0);
    if held < threshold {
        lemma_sampling_advances(0, held, threshold);
        lemma_run_append(start, pressed_for(held), released_for(released), threshold);
        lemma_release_emits_short(held as u8, released, threshold);
        assert(Seq::<PressKind>::empty() + seq![PressKind::Short] =~= seq![PressKind::Short]);
    } else {
        let head = pressed_for(threshold as nat);
        let tail = pressed_for((held - threshold) as nat) + released_for(released);
        assert(pressed_for(held) + released_for(released) =~= head + tail);
        lemma_sampling_advances(0, threshold as nat, threshold);
        lemma_run_append(start, head, tail, threshold);
        lemma_saturated_emits_long(tail, threshold);
        assert(Seq::<PressKind>::empty() + seq![PressKind::Long] =~= seq![PressKind::Long]);
    }
}

/// Threshold boundary: with the bound at `threshold`, holding for one tick
/// less than the bound and releasing gives the short press; holding for
/// `threshold` ticks gives the long press.
pub proof fn lemma_threshold_boundary(released: nat, threshold: u8)
    requires
        threshold >= 1,
        released >= 1,
    ensures
        spec_run_emits(
            DebounceState::Sampling(0),
            pressed_for((threshold - 1) as nat) + released_for(released),
            threshold,
        ) == seq![PressKind::Short],
        spec_run_emits(
            DebounceState::Sampling(0),
            pressed_for(threshold as nat) + released_for(released),
            threshold,
        ) == seq![PressKind::Long],
{
    lemma_one_event_per_press((threshold - 1) as nat, released, threshold);
    lemma_one_event_per_press(threshold as nat, released, threshold);
}

/// The long press is classified at the bound itself: after `threshold`
/// pressed ticks no event has fired yet, and the very next tick fires the
/// long-press event whatever the pin does then or afterwards.
pub proof fn lemma_long_press_at_threshold(after: Seq<bool>, threshold: u8)
    requires
        threshold >= 1,
        after.len() >= 1,
    ensures
        spec_run_emits(DebounceState::Sampling(0), pressed_for(threshold as nat), threshold)
            == Seq::<PressKind>::empty(),
        spec_run_emits(DebounceState::Sampling(0), pressed_for(threshold as nat) + after, threshold)
            == seq![PressKind::Long],
{
    lemma_sampling_advances(0, threshold as nat, threshold);
    lemma_run_append(
        DebounceState::Sampling(0),
        pressed_for(threshold as nat),
        after,
        threshold,
    );
    lemma_saturated_emits_long(after, threshold);
    assert(Seq::<PressKind>::empty() + seq![PressKind::Long] =~= seq![PressKind::Long]);
}

/// Re-arm gating: a falling edge that arrives while the machine is still
/// sampling or cooling down changes nothing — it neither restarts the
/// cycle nor emits an event, so a second edge during a press produces no
/// additional event.
pub proof fn lemma_rearm_gating(s: DebounceState)
    requires
        s is Sampling || s is CoolingDown,
    ensures
        spec_edge_state(s) == s,
{
}

} // verus!
