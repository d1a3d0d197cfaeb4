//! Ownership of the backend process: at most one handle, stored after a
//! successful start and cleared on termination.
use vstd::prelude::*;

verus! {

/// The slot that owns the running backend's handle, if any. The caller
/// shares it behind a lock; the handle itself never leaves except to be
/// killed on termination.
pub struct ProcSlot<H> {
    handle: Option<H>,
}

impl<H> ProcSlot<H> {
    /// The handle held now.
    pub closed spec fn current(&self) -> Option<H> {
        self.handle
    }

    /// An empty slot: nothing has been started.
    pub fn new() -> (r: ProcSlot<H>)
        ensures
            r.current() is None,
    {
        ProcSlot { handle: None }
    }

    /// Whether a handle is held.
    pub fn is_running(&self) -> (r: bool)
        ensures
            r == self.current() is Some,
    {
        self.handle.is_some()
    }

    /// Records the outcome of starting the backend: a started process is
    /// stored; on failure the slot stays empty and the error is handed back.
    pub fn record_spawn<E>(&mut self, outcome: Result<H, E>) -> (r: Result<(), E>)
        requires
            old(self).current() is None,
        ensures
            match outcome {
                Ok(h) => final(self).current() == Some(h) && r is Ok,
                Err(e) => final(self).current() is None && r == Err::<(), E>(e),
            },
    {
        match outcome {
            Ok(h) => {
                self.handle = Some(h);
                Ok(())
            },
            Err(e) => Err(e),
        }
    }

    /// Empties the slot and hands out the handle it held, to be killed. Safe
    /// when nothing was ever started.
    pub fn terminate(&mut self) -> (r: Option<H>)
        ensures
            r == old(self).current(),
            final(self).current() is None,
    {
        self.handle.take()
    }
}

} // verus!
