//! Filesystem events as the watcher classifies them.
use vstd::prelude::*;

verus! {

/// The operations that a raw filesystem event reports on a watched path.
/// One event may report several at once; operations that never matter
/// for a reload (metadata changes, renames, rescans) are not represented,
/// so an event that reports only those has every flag cleared.
#[derive(Clone, Copy, Debug, PartialEq, Eq, Structural)]
pub struct EventOps {
    pub create: bool,
    pub remove: bool,
    pub write: bool,
    pub close_write: bool,
}

impl EventOps {
    /// An event that reports none of the operations that matter.
    pub open spec fn spec_other() -> EventOps {
        EventOps { create: false, remove: false, write: false, close_write: false }
    }

    /// A file was created, removed, written, or closed after writing.
    pub open spec fn relevant(self) -> bool {
        self.create || self.remove || self.write || self.close_write
    }

    pub fn other() -> (r: EventOps)
        ensures
            r == Self::spec_other(),
            !r.relevant(),
    {
        EventOps { create: false, remove: false, write: false, close_write: false }
    }

    pub fn is_relevant(&self) -> (r: bool)
        ensures
            r == self.relevant(),
    {
        self.create || self.remove || self.write || self.close_write
    }
}

} // verus!
