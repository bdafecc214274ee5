//! The interrupt waker cell: the single-slot registration point that bridges
//! a suspended task's wake handle to the interrupt handler that resolves it.
//!
//! The cell has no buffering. A task must therefore (1) register its wake
//! handle, (2) re-check the condition it waits on, and (3) suspend only if
//! the condition is still false: an interrupt that fires after step (1) finds
//! the handle registered, so no wake event is lost. Checking before
//! registering would be a race.

use vstd::prelude::*;

verus! {

/// An opaque wake handle: invoking it makes the suspended task runnable
/// again. The scheduler gives each suspended task one; the library only
/// stores and hands it back.
#[derive(Clone, Copy, PartialEq, Eq, Structural, Debug)]
pub struct WakeTarget {
    pub id: u64,
}

/// Holds at most one pending wake target. Registration overwrites any
/// previous occupant (last-writer-wins); at most one task may be suspended
/// on a given cell at a time.
#[derive(Clone, Copy, PartialEq, Eq, Structural, Debug)]
pub struct WakerCell {
    pub target: Option<WakeTarget>,
}

impl WakerCell {
    /// An empty cell: nothing registered.
    pub fn new() -> (r: WakerCell)
        ensures
            r.target is None,
    {
        WakerCell { target: None }
    }

    /// Store the given wake handle, overwriting any prior occupant. Task
    /// context only; callable any number of times.
    pub fn register(&mut self, w: WakeTarget)
        ensures
            final(self).target == Some(w),
    {
        self.target = Some(w);
    }

    /// Take the currently stored wake handle, if present, leaving the cell
    /// empty; the caller invokes it. Interrupt context only. With no handle
    /// registered this is a no-op: the event is simply not observed.
    pub fn wake(&mut self) -> (woken: Option<WakeTarget>)
        ensures
            woken == old(self).target,
            final(self).target is None,
    {
        let woken = self.target;
        self.target = None;
        woken
    }
}

} // verus!
