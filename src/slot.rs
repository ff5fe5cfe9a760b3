//! The single slot that owns the backend's process handle.
use vstd::prelude::*;

verus! {

/// What one drain of a slot does: it hands out the content and leaves the
/// slot empty. The first component is what is handed out, the second what
/// the slot holds afterwards.
pub open spec fn drain<H>(slot: Option<H>) -> (Option<H>, Option<H>) {
    (slot, None)
}

/// Single-slot owner of the process handle.
///
/// The slot goes from empty to occupied at most once (when a launch
/// succeeds) and from occupied to empty at most once (when it is drained on
/// shutdown). Callers that share it between threads keep it behind one lock;
/// every operation here is a single call on `&mut self` or `&self`, so no
/// caller holding the lock can see a half-written slot.
pub struct SupervisorState<H> {
    handle: Option<H>,
    stored: bool,
}

impl<H> SupervisorState<H> {
    /// What the slot holds now.
    pub closed spec fn slot(&self) -> Option<H> {
        self.handle
    }

    /// Whether a handle was ever placed in the slot.
    pub closed spec fn was_stored(&self) -> bool {
        self.stored
    }

    /// A handle can only be present once one has been stored.
    pub closed spec fn wf(&self) -> bool {
        self.handle is Some ==> self.stored
    }

    /// An empty slot that has never held a handle.
    pub fn new() -> (r: Self)
        ensures
            r.wf(),
            r.slot() is None,
            !r.was_stored(),
    {
        SupervisorState { handle: None, stored: false }
    }

    /// Places the handle of a freshly launched process into the slot.
    /// Storing twice would leak the first handle, so it is ruled out.
    pub fn store(&mut self, handle: H)
        requires
            old(self).wf(),
            !old(self).was_stored(),
        ensures
            final(self).wf(),
            final(self).slot() == Some(handle),
            final(self).was_stored(),
    {
        self.handle = Some(handle);
        self.stored = true;
    }

    /// Removes and returns the handle, leaving the slot empty; returns `None`
    /// when the slot is already empty.
    pub fn take(&mut self) -> (r: Option<H>)
        requires
            old(self).wf(),
        ensures
            final(self).wf(),
            (r, final(self).slot()) == drain(old(self).slot()),
            final(self).was_stored() == old(self).was_stored(),
    {
        let r = self.handle.take();
        r
    }

    /// Whether a handle is present. This does not check that the process
    /// behind it is still alive.
    pub fn peek_running(&self) -> (r: bool)
        ensures
            r == self.slot() is Some,
    {
        self.handle.is_some()
    }
}

/// Draining twice in a row: the first drain hands out whatever the slot
/// held, the second finds the slot empty and hands out nothing.
pub proof fn drain_twice_is_idempotent<H>(slot: Option<H>)
    ensures
        drain(slot).0 == slot,
        drain(drain(slot).1).0 is None,
        drain(drain(slot).1).1 is None,
{
}

/// A drain hands out exactly the handle that the last store placed: the
/// slot never yields anything but the whole stored value or nothing.
pub proof fn store_then_drain<H>(handle: H)
    ensures
        drain(Some(handle)).0 == Some(handle),
        drain(Some(handle)).1 is None,
{
}

} // verus!
