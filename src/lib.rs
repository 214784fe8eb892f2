//! A minimal system-call driver: a numbered command with one word argument
//! is mapped to a typed result, and per-process grant allocation always
//! succeeds.

mod error_code;
mod life;
mod process;
mod syscall;

pub use error_code::ErrorCode;
pub use life::{
    lemma_allocate_grant_always_succeeds, lemma_command_one_checks_data,
    lemma_command_zero_is_constant, lemma_no_hidden_state, lemma_other_commands_unsupported,
    life_command, LifeDriver, EXPECTED_DATA, MEANING_OF_LIFE,
};
pub use process::{ProcessError, ProcessId};
pub use syscall::{CommandReturn, SyscallDriver};
