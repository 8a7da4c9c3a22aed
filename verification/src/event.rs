//! Control events from the orchestrator to the decode thread, delivered
//! through a single-slot mailbox with last-write-wins semantics.

use vstd::prelude::*;

verus! {

/// One control event for the decode thread. Timestamps are microseconds
/// of media time. `Idle` stands for "nothing pending": it is what the
/// decode thread finds after consuming an event, and writing it wakes a
/// paused decode thread without asking anything of it.
#[derive(Clone, Copy, PartialEq, Eq, Structural, Debug)]
pub enum ControlEvent {
    Idle,
    Stop,
    Pause,
    /// Seek to the given media time; the orchestrator clamps it into
    /// `[0, duration]` before sending.
    Seek(u64),
    /// Step to the first keyframe after the given reference time.
    StepToNextKeyframe(u64),
    /// Step to the last keyframe before the given reference time.
    StepToPrevKeyframe(u64),
}

/// The single-slot mailbox between the control thread and the decode
/// thread. A newly set event overwrites, never queues behind, a pending
/// one, so stale events vanish rather than replay; the surrounding
/// program guards the slot with a mutex and notifies a condition variable
/// on every write so a decode thread blocked on `Pause` wakes promptly.
pub struct EventSlot {
    pub current: ControlEvent,
}

impl EventSlot {
    /// The event pending in the slot.
    pub open spec fn pending(self) -> ControlEvent {
        self.current
    }

    /// The slot after an event is set.
    pub open spec fn with_event(self, event: ControlEvent) -> EventSlot {
        EventSlot { current: event }
    }

    /// A fresh slot with nothing pending.
    pub fn new() -> (slot: EventSlot)
        ensures
            slot.pending() == ControlEvent::Idle,
    {
        EventSlot { current: ControlEvent::Idle }
    }

    /// Overwrites whatever was pending with `event`.
    pub fn set(&mut self, event: ControlEvent)
        ensures
            *final(self) == old(self).with_event(event),
            final(self).pending() == event,
    {
        self.current = event;
    }

    /// Consumes the pending event, leaving the slot idle.
    pub fn take(&mut self) -> (event: ControlEvent)
        ensures
            event == old(self).pending(),
            final(self).pending() == ControlEvent::Idle,
    {
        let event = self.current;
        self.current = ControlEvent::Idle;
        event
    }

    /// Reads the pending event without consuming it.
    pub fn peek(&self) -> (event: ControlEvent)
        ensures
            event == self.pending(),
    {
        self.current
    }
}

/// Last write wins: two writes in a row leave exactly the state of the
/// second write alone, so an event set before the decode thread wakes is
/// overwritten, never queued — rapid `Pause` then `Seek` results in
/// `Seek`.
pub proof fn lemma_last_write_wins(slot: EventSlot, first: ControlEvent, second: ControlEvent)
    ensures
        slot.with_event(first).with_event(second) == slot.with_event(second),
{
}

} // verus!
