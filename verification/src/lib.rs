//! Core logic of a contactless-card audio-player firmware: a card decoder
//! turning 16-byte data blocks into playback commands, per-button debounce
//! state machines that classify short and long presses, a tag-presence
//! poller, a priority scheduler for self-rescheduling tasks, a bounded
//! event queue, priority-ceiling handles for resources shared across
//! priority levels, and wraparound-safe deadline arithmetic for a 32-bit
//! free-running cycle counter.

pub mod card;
pub mod ceiling;
pub mod cycles;
pub mod debounce;
pub mod events;
pub mod queue;
pub mod sched;
pub mod tagpoll;
pub mod tasks;
