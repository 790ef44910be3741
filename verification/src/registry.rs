//! The shared resource registry: one process-wide slot for the actuator
//! line and the shared storage-medium session.
//!
//! The actuator slot hands its contents to at most one borrower at a time;
//! a second borrower is refused recoverably while the first holds it.  That
//! refusal is what serializes snapshot operations.  The storage session is
//! shared freely: browsing never contends with the actuator slot.

use vstd::prelude::*;
use crate::flash::ActuatorLine;
use crate::flash::opt_wf;
use crate::storage::Storage;

verus! {

/// Process-wide resource slots, built once at startup and passed to the
/// dispatcher rather than kept as ambient mutable state.
pub struct Registry {
    slot: Option<Option<ActuatorLine>>,
    storage: Storage,
}

impl Registry {
    /// The actuator slot is free (no snapshot operation holds it).
    pub closed spec fn actuator_available(self) -> bool {
        self.slot is Some
    }

    /// The slot's contents when free: the line, or `None` in a no-flash
    /// deployment.
    pub closed spec fn actuator(self) -> Option<ActuatorLine> {
        self.slot->Some_0
    }

    /// The storage-medium session.
    pub closed spec fn storage_medium(self) -> Storage {
        self.storage
    }

    pub open spec fn wf(self) -> bool {
        self.actuator_available() ==> opt_wf(self.actuator())
    }

    /// Build the registry once at startup, with the slot free.
    pub fn new(line: Option<ActuatorLine>, storage: Storage) -> (r: Registry)
        requires
            opt_wf(line),
        ensures
            r.actuator_available(),
            r.actuator() == line,
            r.storage_medium() == storage,
            r.wf(),
    {
        Registry { slot: Some(line), storage }
    }

    /// Borrow the actuator slot exclusively: its contents when free, or
    /// `None` — a recoverable refusal, never a process abort — while
    /// another operation holds it.
    pub fn take_actuator(&mut self) -> (r: Option<Option<ActuatorLine>>)
        ensures
            old(self).actuator_available() ==> {
                &&& r == Some(old(self).actuator())
                &&& !final(self).actuator_available()
            },
            !old(self).actuator_available() ==> {
                &&& r is None
                &&& *final(self) == *old(self)
            },
            final(self).storage_medium() == old(self).storage_medium(),
    {
        self.slot.take()
    }

    /// Return the borrowed contents; the slot becomes free again.
    pub fn put_actuator(&mut self, line: Option<ActuatorLine>)
        requires
            !old(self).actuator_available(),
            opt_wf(line),
        ensures
            final(self).actuator_available(),
            final(self).actuator() == line,
            final(self).storage_medium() == old(self).storage_medium(),
            final(self).wf(),
    {
        self.slot = Some(line);
    }

    /// The shared storage session: many concurrent borrowers may hold it.
    pub fn storage(&self) -> (r: &Storage)
        ensures
            r == self.storage_medium(),
    {
        &self.storage
    }
}

} // verus!
