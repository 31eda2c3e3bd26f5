//! Model of the completion signal attached to each slot: a one-shot,
//! auto-reset binary semaphore. The real signal is an OS event object that
//! the encoding driver sets when a slot's work is done; the core only ever
//! needs the protocol-visible state modeled here, and the blocking wait on
//! the real handle is the embedder's job.

use vstd::prelude::*;

verus! {

/// One-shot completion signal owned by a slot. Reset before each submission,
/// set by the (external) driver, consumed exactly once by the consumer.
#[derive(Debug, Clone, Copy, PartialEq, Eq, Structural)]
pub struct EventObject {
    /// Whether the signal is currently set.
    pub signaled: bool,
}

impl EventObject {
    /// A fresh signal starts un-set.
    pub fn new() -> (r: Self)
        ensures
            !r.signaled,
    {
        EventObject { signaled: false }
    }

    /// Driver side: set the signal. Only the external driver does this.
    pub fn set(&mut self)
        ensures
            *final(self) == (EventObject { signaled: true }),
    {
        self.signaled = true;
    }

    /// Put the signal back to un-set (done before a slot is resubmitted).
    pub fn reset(&mut self)
        ensures
            *final(self) == (EventObject { signaled: false }),
    {
        self.signaled = false;
    }

    /// Whether the signal is currently set, without consuming it.
    pub fn is_set(&self) -> (r: bool)
        ensures
            r == self.signaled,
    {
        self.signaled
    }

    /// Consumer side: non-blocking wait. Consumes the signal if it is set
    /// (auto-reset) and reports whether it was.
    pub fn try_wait(&mut self) -> (ready: bool)
        ensures
            ready == old(self).signaled,
            *final(self) == (EventObject { signaled: false }),
    {
        let ready = self.signaled;
        self.signaled = false;
        ready
    }
}

} // verus!
