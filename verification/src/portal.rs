//! Per-key single-waiter event dispatch slot.
//!
//! A portal is not a queue: it holds at most one registered waiter at a time.
//! Registering while a waiter is pending is rejected; an event that arrives
//! with no registered waiter is dropped by the dispatch path. The waiter value
//! records what the suspended task is waiting for, so the dispatch path can
//! decide synchronously whether an event resolves it.

use vstd::prelude::*;

verus! {

/// A second waiter was registered before the pending one resolved: callers
/// must serialize access, one in-flight operation per key.
#[derive(Clone, Copy, Debug, PartialEq, Eq, Structural)]
pub struct PortalBusyError;

/// Single-waiter dispatch slot.
pub struct Portal<W> {
    waiter: Option<W>,
}

impl<W> Portal<W> {
    /// The registered waiter, if one is pending.
    pub closed spec fn waiter(self) -> Option<W> {
        self.waiter
    }

    /// True while a waiter is registered and unresolved.
    pub open spec fn is_waiting(self) -> bool {
        self.waiter() is Some
    }

    /// An empty slot: nobody is waiting.
    pub fn new() -> (p: Self)
        ensures
            p.waiter() is None,
    {
        Portal { waiter: None }
    }

    /// Registers the calling task as the sole waiter. An occupied slot
    /// rejects the registration and keeps the pending waiter untouched.
    pub fn register(&mut self, w: W) -> (r: Result<(), PortalBusyError>)
        ensures
            old(self).waiter() is None ==> r is Ok && final(self).waiter() == Some(w),
            old(self).waiter() is Some ==> r == Err::<(), PortalBusyError>(PortalBusyError)
                && final(self).waiter() == old(self).waiter(),
    {
        if self.waiter.is_some() {
            Err(PortalBusyError)
        } else {
            self.waiter = Some(w);
            Ok(())
        }
    }

    /// Takes the pending waiter out, clearing the slot. The dispatch path
    /// calls this when it is about to resolve or re-examine the wait.
    pub fn take(&mut self) -> (r: Option<W>)
        ensures
            final(self).waiter() is None,
            r == old(self).waiter(),
    {
        self.waiter.take()
    }

    /// Whether a waiter is currently registered.
    pub fn occupied(&self) -> (r: bool)
        ensures
            r == self.is_waiting(),
    {
        self.waiter.is_some()
    }
}

} // verus!
