use vstd::prelude::*;

verus! {

/// Identity of a calling process, as handed to a driver by the dispatch
/// front-end. Drivers use it to index per-process resources only.
#[derive(Clone, Copy, Debug, PartialEq, Eq, Structural)]
pub struct ProcessId {
    pub identifier: usize,
}

impl ProcessId {
    pub fn new(identifier: usize) -> (r: ProcessId)
        ensures
            r.identifier == identifier,
    {
        ProcessId { identifier }
    }

    pub fn id(&self) -> (r: usize)
        ensures
            r == self.identifier,
    {
        self.identifier
    }
}

/// Why a process-level request (such as reserving a grant) could not be met.
#[derive(Clone, Copy, Debug, PartialEq, Eq, Structural)]
pub enum ProcessError {
    NoSuchApp,
    OutOfMemory,
    AddressOutOfBounds,
    KernelError,
    AlreadyInUse,
}

} // verus!
