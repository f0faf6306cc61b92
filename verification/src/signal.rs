//! Single-slot delivery primitive.
//!
//! A `Signal` carries at most one pending result from the event-dispatch path
//! to one waiting task. Delivery never suspends; if no task is waiting yet,
//! the value is buffered until the next take. Delivering a second value before
//! the first was consumed is a protocol misuse and is excluded by contract.

use vstd::prelude::*;

verus! {

/// One pending result, delivered at most once.
pub struct Signal<T> {
    slot: Option<T>,
}

impl<T> Signal<T> {
    /// True when a delivered value is buffered and not yet consumed.
    pub closed spec fn has_value(self) -> bool {
        self.slot is Some
    }

    /// The buffered value, when one is present.
    pub closed spec fn value(self) -> T
        recommends
            self.has_value(),
    {
        self.slot->Some_0
    }

    /// Creates an empty slot.
    pub fn new() -> (s: Self)
        ensures
            !s.has_value(),
    {
        Signal { slot: None }
    }

    /// Delivers a value. Callers must have consumed any earlier delivery
    /// first: one slot, at most one undelivered value.
    pub fn signal(&mut self, v: T)
        requires
            !old(self).has_value(),
        ensures
            final(self).has_value(),
            final(self).value() == v,
    {
        self.slot = Some(v);
    }

    /// Consumes the buffered value if one has been delivered. A waiting task
    /// polls this after each delivery; `Some` resumes it with the result,
    /// `None` means it keeps waiting.
    pub fn try_take(&mut self) -> (r: Option<T>)
        ensures
            !final(self).has_value(),
            old(self).has_value() ==> r == Some(old(self).value()),
            !old(self).has_value() ==> r is None,
    {
        self.slot.take()
    }
}

} // verus!
