use vstd::prelude::*;

verus! {

/// The process whose handle a resolution holds.
#[derive(Clone, Copy, Debug, PartialEq, Eq, Structural)]
pub enum ProcessSlot {
    /// No process is held.
    Empty,
    /// The calling process: its handle is the system's to manage and is never closed.
    Current,
    /// Another process: its handle was opened for the resolution, which must close it.
    Other,
}

/// The handles that a resolution holds: at most one process, and at most one token,
/// which was derived from that process.
#[derive(Clone, Copy, Debug, PartialEq, Eq, Structural)]
pub struct Handles {
    pub process: ProcessSlot,
    pub token: bool,
}

impl Handles {
    /// A token is held only together with the process it came from.
    pub open spec fn wf(self) -> bool {
        self.token ==> self.process != ProcessSlot::Empty
    }

    /// Whether a handle is held that has to be closed.
    pub open spec fn owes(self) -> bool {
        self.token || self.process == ProcessSlot::Other
    }

    /// No handle at all.
    pub fn none() -> (h: Handles)
        ensures
            h == (Handles { process: ProcessSlot::Empty, token: false }),
            h.wf(),
            !h.owes(),
    {
        Handles { process: ProcessSlot::Empty, token: false }
    }

    /// Whether the process that is held has to be closed.
    pub fn owns_process(&self) -> (b: bool)
        ensures
            b == (self.process == ProcessSlot::Other),
    {
        match self.process {
            ProcessSlot::Other => true,
            _ => false,
        }
    }
}

} // verus!
