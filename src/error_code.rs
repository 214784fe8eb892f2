use vstd::prelude::*;

verus! {

/// The error vocabulary shared by every driver of the system.
#[derive(Clone, Copy, Debug, PartialEq, Eq, Structural)]
pub enum ErrorCode {
    Fail,
    Busy,
    Already,
    Off,
    Reserve,
    InvalidArgument,
    Size,
    Cancel,
    NoMem,
    NotSupported,
    NoDevice,
    Uninstalled,
    NoAck,
}

} // verus!
