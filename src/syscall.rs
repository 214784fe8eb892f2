use vstd::prelude::*;

use crate::error_code::ErrorCode;
use crate::process::{ProcessError, ProcessId};

verus! {

/// The outcome of one command: exactly one of these variants is produced
/// per invocation.
#[derive(Clone, Copy, Debug, PartialEq, Eq, Structural)]
pub enum CommandReturn {
    Success,
    SuccessU32(u32),
    Failure(ErrorCode),
}

impl CommandReturn {
    pub fn success() -> (r: CommandReturn)
        ensures
            r == CommandReturn::Success,
    {
        CommandReturn::Success
    }

    pub fn success_u32(value: u32) -> (r: CommandReturn)
        ensures
            r == CommandReturn::SuccessU32(value),
    {
        CommandReturn::SuccessU32(value)
    }

    pub fn failure(code: ErrorCode) -> (r: CommandReturn)
        ensures
            r == CommandReturn::Failure(code),
    {
        CommandReturn::Failure(code)
    }

    pub fn is_success(&self) -> (r: bool)
        ensures
            r == !(*self is Failure),
    {
        !matches!(self, CommandReturn::Failure(_))
    }
}

/// What the dispatch front-end asks of every driver: a synchronous command
/// entry point and the reservation of a per-process grant.
///
/// Each implementation states its behaviour through the two spec functions;
/// the executable methods are held to them exactly.
pub trait SyscallDriver {
    spec fn command_spec(
        &self,
        command_num: usize,
        data: usize,
        arg2: usize,
        process_id: ProcessId,
    ) -> CommandReturn;

    spec fn allocate_grant_spec(&self, process_id: ProcessId) -> Result<(), ProcessError>;

    fn command(&self, command_num: usize, data: usize, arg2: usize, process_id: ProcessId) -> (r:
        CommandReturn)
        ensures
            r == self.command_spec(command_num, data, arg2, process_id),
    ;

    fn allocate_grant(&self, process_id: ProcessId) -> (r: Result<(), ProcessError>)
        ensures
            r == self.allocate_grant_spec(process_id),
    ;
}

} // verus!
