//! Process Supervisor's lifecycle registry: the one shared slot that holds
//! the companion's process identifier.
//!
//! The identifier is written once, shortly after the companion is spawned,
//! and may be read by any later lifecycle operation (none exists yet; a
//! graceful shutdown would start here). The host application wraps the
//! registry in its exclusive-access lock; the write-once discipline itself
//! is enforced here.

use vstd::prelude::*;

verus! {

/// A single write-once slot for the companion's process identifier.
pub struct ProcessRegistry {
    id: Option<u32>,
}

impl ProcessRegistry {
    /// The recorded process identifier, if one has been recorded.
    pub closed spec fn recorded(self) -> Option<u32> {
        self.id
    }

    /// A fresh registry with no process recorded.
    pub fn new() -> (r: ProcessRegistry)
        ensures
            r.recorded() is None,
    {
        ProcessRegistry { id: None }
    }

    /// Records the companion's process identifier. The slot is write-once:
    /// recording is only allowed while nothing is recorded yet, so a
    /// recorded identifier never changes afterwards.
    pub fn record(&mut self, pid: u32)
        requires
            old(self).recorded() is None,
        ensures
            final(self).recorded() == Some(pid),
    {
        self.id = Some(pid);
    }

    /// Reads the recorded process identifier.
    pub fn get(&self) -> (r: Option<u32>)
        ensures
            r == self.recorded(),
    {
        self.id
    }
}

} // verus!
