//! Run-to-completion bodies of the firmware's periodic tasks: what each
//! task decides and publishes, given the pin sample or card block that
//! the platform layer hands it.
//!
//! Each body runs without suspension and reports whether it wants another
//! periodic invocation; rescheduling is the only recurring-behaviour
//! mechanism.  A decided press classification is published to the event
//! queue; a refused publish (queue full) is reported to the caller rather
//! than absorbed, since losing a short/long distinction silently is not
//! acceptable.

use vstd::prelude::*;

use crate::card::{spec_card, spec_cookie, Card, CARD_COOKIE};
use crate::debounce::{spec_emit, spec_step, Debounce, PressKind};
use crate::events::{Button, Events};
use crate::queue::{queue_contents, EventQueue, EVENT_QUEUE_CAPACITY};

verus! {

/// The event that a classified press of `button` publishes.
pub open spec fn spec_press_event(button: Button, kind: PressKind) -> Events {
    match kind {
        PressKind::Short => Events::ButtonPressedShort(button),
        PressKind::Long => Events::ButtonPressedLong(button),
    }
}

/// The event that a classified press of `button` publishes.
pub fn press_event(button: Button, kind: PressKind) -> (r: Events)
    ensures
        r == spec_press_event(button, kind),
{
    match kind {
        PressKind::Short => Events::ButtonPressedShort(button),
        PressKind::Long => Events::ButtonPressedLong(button),
    }
}

/// What one button tick decided and did.
pub struct ButtonTickOutcome {
    /// The press classification this tick decided, if any.
    pub emitted: Option<PressKind>,
    /// Whether the decided event found a free queue slot; `true` when
    /// this tick decided nothing.
    pub published: bool,
    /// Whether the machine still wants its periodic tick.
    pub reschedule: bool,
}

/// One periodic tick of `button`'s debounce machine: advance the machine
/// on the current pin sample, publish the classification the tick
/// decides, and report whether the machine wants another tick.
pub fn button_tick(
    machine: &mut Debounce,
    queue: &mut EventQueue,
    button: Button,
    pressed: bool,
) -> (r: ButtonTickOutcome)
    requires
        old(machine).wf(),
    ensures
        final(machine).wf(),
        final(machine).threshold == old(machine).threshold,
        final(machine).state == spec_step(old(machine).state, pressed, old(machine).threshold),
        r.emitted == spec_emit(old(machine).state, pressed, old(machine).threshold),
        r.reschedule == !(final(machine).state is Idle),
        match r.emitted {
            Some(kind) => {
                &&& r.published == (queue_contents(*old(queue)).len() < EVENT_QUEUE_CAPACITY)
                &&& r.published ==> queue_contents(*final(queue)) == queue_contents(
                    *old(queue),
                ).push(spec_press_event(button, kind))
                &&& !r.published ==> queue_contents(*final(queue)) == queue_contents(*old(queue))
            },
            None => r.published && queue_contents(*final(queue)) == queue_contents(*old(queue)),
        },
{
    let emitted = machine.on_tick(pressed);
    let published = match emitted {
        Some(kind) => queue.enqueue(press_event(button, kind)),
        None => true,
    };
    let reschedule = machine.needs_tick();
    ButtonTickOutcome { emitted, published, reschedule }
}

/// What publishing a freshly read card block decided and did.
pub struct TagReadOutcome {
    /// The card the block decoded to, if its cookie was valid.
    pub card: Option<Card>,
    /// Whether the decoded card found a free queue slot; `true` when the
    /// block was rejected (a rejected block is a normal outcome and
    /// publishes nothing).
    pub published: bool,
}

/// Decode a block read from a newly seen tag and publish the new-tag
/// event it decodes to.  A block without the cookie publishes nothing: a
/// foreign or malformed card is silent, never an error.
pub fn publish_block(queue: &mut EventQueue, block: [u8; 16]) -> (r: TagReadOutcome)
    ensures
        r.card == if spec_cookie(block@) == CARD_COOKIE {
            Some(spec_card(block@))
        } else {
            None::<Card>
        },
        match r.card {
            Some(card) => {
                &&& r.published == (queue_contents(*old(queue)).len() < EVENT_QUEUE_CAPACITY)
                &&& r.published ==> queue_contents(*final(queue)) == queue_contents(
                    *old(queue),
                ).push(Events::NewTag(card))
                &&& !r.published ==> queue_contents(*final(queue)) == queue_contents(*old(queue))
            },
            None => r.published && queue_contents(*final(queue)) == queue_contents(*old(queue)),
        },
{
    match Card::try_from(block) {
        Ok(card) => {
            let published = queue.enqueue(Events::NewTag(card));
            TagReadOutcome { card: Some(card), published }
        },
        Err(()) => TagReadOutcome { card: None, published: true },
    }
}

} // verus!
