//! Application-level events and the button identities that appear in them.

use vstd::prelude::*;

use crate::card::Card;

verus! {

/// The three physical transport-control buttons.
#[derive(Debug, Clone, Copy, PartialEq, Eq, Structural)]
pub enum Button {
    PlayPause,
    Up,
    Down,
}

/// Messages carried through the event queue from the producing tasks to the
/// single idle-context consumer.
#[derive(Debug, Clone, Copy, PartialEq, Eq, Structural)]
pub enum Events {
    /// A new tag is in the field of the tag reader.  The event carries
    /// the fully decoded card, and it re-arms strictly on identifier
    /// change: continued presence of the same tag raises no second event.
    NewTag(Card),
    /// A button has been pressed short (released before the long-press bound).
    ButtonPressedShort(Button),
    /// A button has been held past the long-press bound (>1s by default).
    ButtonPressedLong(Button),
}

} // verus!
