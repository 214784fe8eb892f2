use vstd::prelude::*;

use crate::error_code::ErrorCode;
use crate::process::{ProcessError, ProcessId};
use crate::syscall::{CommandReturn, SyscallDriver};

verus! {

/// The value that command 0 answers with.
pub const MEANING_OF_LIFE: u32 = 42;

/// The only `data` that command 1 accepts.
pub const EXPECTED_DATA: usize = 42;

/// A driver without device state: command 0 answers a constant, command 1
/// checks its argument, every other command is unsupported.
#[derive(Clone, Copy, Debug, PartialEq, Eq, Structural)]
pub struct LifeDriver;

/// The result of a command, as a function of the command number and the
/// first argument alone.
pub open spec fn life_command(command_num: usize, data: usize) -> CommandReturn {
    if command_num == 0 {
        CommandReturn::SuccessU32(MEANING_OF_LIFE)
    } else if command_num == 1 {
        if data == EXPECTED_DATA {
            CommandReturn::Success
        } else {
            CommandReturn::Failure(ErrorCode::InvalidArgument)
        }
    } else {
        CommandReturn::Failure(ErrorCode::NotSupported)
    }
}

impl LifeDriver {
    pub fn new() -> (r: LifeDriver)
        ensures
            r == LifeDriver,
    {
        LifeDriver
    }
}

impl SyscallDriver for LifeDriver {
    open spec fn command_spec(
        &self,
        command_num: usize,
        data: usize,
        arg2: usize,
        process_id: ProcessId,
    ) -> CommandReturn {
        life_command(command_num, data)
    }

    open spec fn allocate_grant_spec(&self, process_id: ProcessId) -> Result<(), ProcessError> {
        Ok(())
    }

    fn command(&self, command_num: usize, data: usize, arg2: usize, process_id: ProcessId) -> (r:
        CommandReturn) {
        match command_num {
            0 => CommandReturn::success_u32(MEANING_OF_LIFE),
            1 => {
                if data != EXPECTED_DATA {
                    CommandReturn::failure(ErrorCode::InvalidArgument)
                } else {
                    CommandReturn::success()
                }
            },
            _ => CommandReturn::failure(ErrorCode::NotSupported),
        }
    }

    fn allocate_grant(&self, process_id: ProcessId) -> (r: Result<(), ProcessError>) {
        Ok(())
    }
}

/// Command 0 answers 42 whatever its arguments and caller.
pub proof fn lemma_command_zero_is_constant(
    driver: LifeDriver,
    data: usize,
    arg2: usize,
    process_id: ProcessId,
)
    ensures
        driver.command_spec(0, data, arg2, process_id) == CommandReturn::SuccessU32(42),
{
}

/// Command 1 succeeds, with no value, exactly when `data` is 42, and fails
/// with `InvalidArgument` otherwise.
pub proof fn lemma_command_one_checks_data(
    driver: LifeDriver,
    data: usize,
    arg2: usize,
    process_id: ProcessId,
)
    ensures
        data == 42 ==> driver.command_spec(1, data, arg2, process_id) == CommandReturn::Success,
        data != 42 ==> driver.command_spec(1, data, arg2, process_id) == CommandReturn::Failure(
            ErrorCode::InvalidArgument,
        ),
{
}

/// Every command number other than 0 and 1 fails with `NotSupported`,
/// whatever the arguments and caller.
pub proof fn lemma_other_commands_unsupported(
    driver: LifeDriver,
    command_num: usize,
    data: usize,
    arg2: usize,
    process_id: ProcessId,
)
    requires
        command_num != 0,
        command_num != 1,
    ensures
        driver.command_spec(command_num, data, arg2, process_id) == CommandReturn::Failure(
            ErrorCode::NotSupported,
        ),
{
}

/// Grant allocation succeeds for every caller, however often it is asked.
pub proof fn lemma_allocate_grant_always_succeeds(driver: LifeDriver, process_id: ProcessId)
    ensures
        driver.allocate_grant_spec(process_id) == Ok::<(), ProcessError>(()),
{
}

/// No call leaves a trace: any two driver values give the same answer to the
/// same command number and `data`, whatever the second argument and the
/// caller, and the same answer to grant allocation for any two callers.
/// Results depend on the inputs alone, so calls may come in any order.
pub proof fn lemma_no_hidden_state(
    first: LifeDriver,
    second: LifeDriver,
    command_num: usize,
    data: usize,
    arg2_first: usize,
    arg2_second: usize,
    process_first: ProcessId,
    process_second: ProcessId,
)
    ensures
        first.command_spec(command_num, data, arg2_first, process_first) == second.command_spec(
            command_num,
            data,
            arg2_second,
            process_second,
        ),
        first.allocate_grant_spec(process_first) == second.allocate_grant_spec(process_second),
{
}

} // verus!
